//! Reads the C header of a generated control model and writes the Rust
//! module that wraps it: value types, defaults, and serde code.
use vstd::prelude::*;

pub mod model;
pub mod pattern;
pub mod text;

pub use model::simulink::{DeserializeImpl, List, SerializeImpl, Simulink, Visitor, IO};
pub use model::{HeaderError, Model};

use model::model_code_text;
use text::{ends_with, has_suffix, opt_text, same_text, views};

verus! {

/// The extension of C sources.
pub const SOURCE_EXTENSION: &'static str = "c";

/// The extension of C headers.
pub const HEADER_EXTENSION: &'static str = "h";

/// The folder that holds the C files when no other is given.
pub const DEFAULT_FOLDER: &'static str = "sys";

/// The paths among `files` whose extension is `ext`, in their order.
pub open spec fn with_extension(files: Seq<(String, String)>, ext: Seq<char>) -> Seq<Seq<char>>
    decreases files.len(),
{
    if files.len() == 0 {
        Seq::empty()
    } else {
        let rest = with_extension(files.drop_last(), ext);
        if files.last().1@ == ext {
            rest.push(files.last().0@)
        } else {
            rest
        }
    }
}

/// Whether a header is the model's own, not one of the support headers that
/// the code generator writes beside it.
pub open spec fn is_main_header(h: Seq<char>) -> bool {
    !(has_suffix(h, "rtwtypes.h"@) || has_suffix(h, "rt_defines.h"@) || has_suffix(h, "_private.h"@)
        || has_suffix(h, "_types.h"@))
}

/// The alias that gives the controller type the name the user chose.
pub open spec fn alias_text(controller: Seq<char>, model: Seq<char>) -> Seq<char> {
    "/// Rust binder to Simulink C controller wrapper\n#[allow(dead_code)]\npub type "@ + controller
        + " = "@ + model + ";\n"@
}

/// Simulink control system C source and header files
#[derive(Debug, Default, Clone)]
pub struct Sys {
    controller: Option<String>,
    sources: Vec<String>,
    headers: Vec<String>,
}

/// Builds a [Sys]
pub struct Builder {
    controller_type: Option<String>,
    sys_folder: String,
}

impl View for Builder {
    /// The chosen type name and the folder
    type V = (Option<Seq<char>>, Seq<char>);

    closed spec fn view(&self) -> (Option<Seq<char>>, Seq<char>) {
        (opt_text(self.controller_type), self.sys_folder@)
    }
}

impl View for Sys {
    /// The chosen type name, the sources and the headers
    type V = (Option<Seq<char>>, Seq<Seq<char>>, Seq<Seq<char>>);

    closed spec fn view(&self) -> (Option<Seq<char>>, Seq<Seq<char>>, Seq<Seq<char>>) {
        (opt_text(self.controller), views(self.sources@), views(self.headers@))
    }
}

impl Default for Builder {
    fn default() -> (r: Self)
        ensures
            r@ == (None::<Seq<char>>, DEFAULT_FOLDER@),
    {
        Builder { controller_type: None, sys_folder: String::from_str(DEFAULT_FOLDER) }
    }
}

/// The paths of `files` whose extension is `ext`.
fn paths_with_extension(files: &Vec<(String, String)>, ext: &str) -> (r: Vec<String>)
    ensures
        views(r@) == with_extension(files@, ext@),
{
    let mut out: Vec<String> = Vec::new();
    let mut i: usize = 0;
    while i < files.len()
        invariant
            i <= files@.len(),
            views(out@) == with_extension(files@.subrange(0, i as int), ext@),
        decreases files@.len() - i,
    {
        let ghost before = out@;
        assert(files@.subrange(0, i + 1).drop_last() =~= files@.subrange(0, i as int));
        if same_text(files[i].1.as_str(), ext) {
            out.push(files[i].0.clone());
            assert(views(out@) =~= views(before).push(files@[i as int].0@));
        }
        i = i + 1;
    }
    assert(files@.subrange(0, i as int) =~= files@);
    out
}

impl Builder {
    /// Sets the name of the Rust type that wraps the Simulink C code
    ///
    /// If not set, the type keeps the name of the Simulink control model
    pub fn name(self, rs_type: &str) -> (r: Self)
        ensures
            r@ == (Some(rs_type@), self@.1),
    {
        Builder { controller_type: Some(String::from_str(rs_type)), sys_folder: self.sys_folder }
    }

    /// Sets the name of the folder with the C header and source files
    ///
    /// If not set, the folder is named "sys"
    pub fn folder(self, folder: &str) -> (r: Self)
        ensures
            r@ == (self@.0, folder@),
    {
        Builder { controller_type: self.controller_type, sys_folder: String::from_str(folder) }
    }

    /// The folder with the C header and source files
    pub fn sys_folder(&self) -> (r: &str)
        ensures
            r@ == self@.1,
    {
        self.sys_folder.as_str()
    }

    /// Builds the wrapper from the files of the folder, each given as its path
    /// and its extension: the `c` files are the sources, the `h` files the
    /// headers
    pub fn build(self, files: Vec<(String, String)>) -> (r: Sys)
        ensures
            r@ == (self@.0, with_extension(files@, SOURCE_EXTENSION@), with_extension(
                files@,
                HEADER_EXTENSION@,
            )),
    {
        Sys {
            controller: self.controller_type,
            sources: paths_with_extension(&files, SOURCE_EXTENSION),
            headers: paths_with_extension(&files, HEADER_EXTENSION),
        }
    }
}

impl Sys {
    /// Creates the wrapper from the files of the folder, each given as its
    /// path and its extension; the controller is given the type `rs_type` if
    /// present
    pub fn new(rs_type: Option<&str>, files: Vec<(String, String)>) -> (r: Self)
        ensures
            r@ == (
                match rs_type {
                    Some(t) => Some(t@),
                    None => None,
                },
                with_extension(files@, SOURCE_EXTENSION@),
                with_extension(files@, HEADER_EXTENSION@),
            ),
    {
        Sys {
            controller: match rs_type {
                Some(t) => Some(String::from_str(t)),
                None => None,
            },
            sources: paths_with_extension(&files, SOURCE_EXTENSION),
            headers: paths_with_extension(&files, HEADER_EXTENSION),
        }
    }

    /// Creates a builder for the wrapper
    pub fn builder() -> (r: Builder)
        ensures
            r@ == (None::<Seq<char>>, DEFAULT_FOLDER@),
    {
        Builder::default()
    }

    /// The main header file: the first header that is not a support header
    pub fn header(&self) -> (r: Option<&str>)
        ensures
            match r {
                Some(h) => exists|i: int|
                    0 <= i < self@.2.len() && self@.2[i] == h@ && is_main_header(h@) && forall|
                        j: int,
                    | 0 <= j < i ==> !is_main_header(#[trigger] self@.2[j]),
                None => forall|j: int| 0 <= j < self@.2.len() ==> !is_main_header(#[trigger] self@.2[j]),
            },
    {
        let mut i: usize = 0;
        while i < self.headers.len()
            invariant
                i <= self.headers@.len(),
                forall|j: int| 0 <= j < i ==> !is_main_header(#[trigger] self@.2[j]),
            decreases self.headers@.len() - i,
        {
            let h = self.headers[i].as_str();
            assert(self@.2[i as int] == h@);
            if !(ends_with(h, "rtwtypes.h") || ends_with(h, "rt_defines.h") || ends_with(h, "_private.h")
                || ends_with(h, "_types.h")) {
                return Some(h);
            }
            i = i + 1;
        }
        None
    }

    /// The source files
    pub fn sources(&self) -> (r: &Vec<String>)
        ensures
            views(r@) == self@.1,
    {
        &self.sources
    }

    /// The header files
    pub fn headers(&self) -> (r: &Vec<String>)
        ensures
            views(r@) == self@.2,
    {
        &self.headers
    }

    /// The Rust module for the model read from the main header: the alias to
    /// the chosen type name, if one was chosen, then the model's own code
    pub fn module_text(&self, model: &Model) -> (r: String)
        ensures
            r@ == match self@.0 {
                Some(c) => alias_text(c, model.name@) + model_code_text(model@),
                None => model_code_text(model@),
            },
    {
        let code = model.to_string();
        match &self.controller {
            Some(c) => {
                let mut out = String::from_str(
                    "/// Rust binder to Simulink C controller wrapper\n#[allow(dead_code)]\npub type ",
                );
                out.append(c.as_str());
                out.append(" = ");
                out.append(model.name.as_str());
                out.append(";\n");
                out.append(code.as_str());
                out
            },
            None => code,
        }
    }
}

} // verus!
