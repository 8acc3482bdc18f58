//! The model of a control system's header: its name and its structures.
use vstd::prelude::*;

pub mod simulink;

use crate::pattern::{captures, group, group_at, regex_captures};
use crate::text::{join, join_strings, views};
use simulink::{
    Simulink, between_blocks, closing_of, is_const_parameters, law_closed_block_kept,
    law_const_parameters_discarded, members, opens_block, default_struct_text, struct_code_text, StructView, lemma_seek_advances, opt_view, seek, structures};

verus! {

/// The comment line that names the control model.
pub const FILE_PATTERN: &'static str = r"File:\s*(\w+)\.h";

/// The model name that `line` gives, if it gives one.
pub open spec fn file_name_of(line: Seq<char>) -> Option<Seq<char>> {
    match regex_captures(FILE_PATTERN@, line) {
        Some(g) => group(g, 1),
        None => None,
    }
}

/// The first line from `pos` on that names the model: its index and the name.
pub open spec fn name_line(lines: Seq<Seq<char>>, pos: int) -> Option<(int, Seq<char>)>
    decreases lines.len() - pos,
{
    if pos < 0 || pos >= lines.len() {
        None
    } else {
        match file_name_of(lines[pos]) {
            Some(name) => Some((pos, name)),
            None => name_line(lines, pos + 1),
        }
    }
}

/// What a model is: its name and its structures in the order of the header.
pub open spec fn header_model(lines: Seq<Seq<char>>) -> Option<(Seq<char>, Seq<StructView>)> {
    match name_line(lines, 0) {
        Some((k, name)) => Some((name, structures(lines, k + 1))),
        None => None,
    }
}

/// Why a header cannot be read into a model
#[derive(Debug, Clone, Copy, PartialEq, Eq, Structural)]
pub enum HeaderError {
    /// no line of the header names the model
    MissingName,
}

/// Simulink model description
#[derive(Default, Debug)]
pub struct Model {
    pub name: String,
    pub simulink: Vec<Simulink>,
}

/// The views of a sequence of structures.
pub open spec fn structs_view(s: Seq<Simulink>) -> Seq<StructView> {
    s.map_values(|x: Simulink| x@)
}

impl View for Model {
    type V = (Seq<char>, Seq<StructView>);

    open spec fn view(&self) -> (Seq<char>, Seq<StructView>) {
        (self.name@, structs_view(self.simulink@))
    }
}

proof fn lemma_no_name_from(lines: Seq<Seq<char>>, pos: int)
    requires
        0 <= pos,
        forall|i: int| 0 <= i < lines.len() ==> file_name_of(#[trigger] lines[i]) is None,
    ensures
        name_line(lines, pos) is None,
    decreases lines.len() - pos,
{
    if pos < lines.len() {
        lemma_no_name_from(lines, pos + 1);
    }
}

/// A header with no line that names the model gives no model: reading it
/// fails with a missing name.
pub proof fn law_missing_name(lines: Seq<Seq<char>>)
    requires
        forall|i: int| 0 <= i < lines.len() ==> file_name_of(#[trigger] lines[i]) is None,
    ensures
        header_model(lines) is None,
{
    lemma_no_name_from(lines, 0);
}

/// No structure of a model read from a header is a block of constant
/// parameters, whatever the header holds.
pub proof fn law_model_has_no_const_parameters(lines: Seq<Seq<char>>)
    ensures
        header_model(lines) is Some ==> forall|i: int|
            0 <= i < header_model(lines)->Some_0.1.len() ==> !is_const_parameters(
                #[trigger] header_model(lines)->Some_0.1[i].0,
            ),
{
    if let Some((k, name)) = name_line(lines, 0) {
        law_const_parameters_discarded(lines, k + 1);
    }
}

/// A block after the line that names the model, met between blocks and
/// closed under a name not of constant parameters, is a structure of the
/// model, with that name and the members of its lines.
pub proof fn law_model_keeps_closed_blocks(lines: Seq<Seq<char>>, open: int, close: int)
    requires
        name_line(lines, 0) is Some,
        name_line(lines, 0)->Some_0.0 < open < close < lines.len(),
        between_blocks(lines, name_line(lines, 0)->Some_0.0 + 1, open),
        opens_block(lines[open]),
        closing_of(lines[close]) is Some,
        !is_const_parameters(closing_of(lines[close])->Some_0),
        forall|k: int| open < k < close ==> closing_of(#[trigger] lines[k]) is None,
    ensures
        header_model(lines) is Some,
        header_model(lines)->Some_0.1.contains(
            (closing_of(lines[close])->Some_0, members(lines, open + 1, close)),
        ),
{
    lemma_name_line_in_range(lines, 0);
    law_closed_block_kept(lines, name_line(lines, 0)->Some_0.0 + 1, open, close);
}

proof fn lemma_name_line_in_range(lines: Seq<Seq<char>>, pos: int)
    ensures
        name_line(lines, pos) is Some ==> pos <= name_line(lines, pos)->Some_0.0 < lines.len(),
    decreases lines.len() - pos,
{
    if 0 <= pos < lines.len() {
        lemma_name_line_in_range(lines, pos + 1);
    }
}

/// The name that `line` gives to the model.
fn file_name(line: &str) -> (r: Option<String>)
    ensures
        match r {
            Some(n) => file_name_of(line@) == Some(n@),
            None => file_name_of(line@) is None,
        },
{
    let groups = captures(FILE_PATTERN, line)?;
    group_at(&groups, 1)
}

/// The first line that names the model: its index and the name.
fn find_name(lines: &Vec<String>) -> (r: Option<(usize, String)>)
    ensures
        match r {
            Some((k, name)) => k < lines@.len() && name_line(views(lines@), 0) == Some(
                (k as int, name@),
            ),
            None => name_line(views(lines@), 0) is None,
        },
{
    let ghost ls = views(lines@);
    let mut k: usize = 0;
    while k < lines.len()
        invariant
            k <= lines@.len(),
            ls == views(lines@),
            name_line(ls, k as int) == name_line(ls, 0),
        decreases lines@.len() - k,
    {
        assert(ls[k as int] == lines@[k as int]@);
        match file_name(lines[k].as_str()) {
            Some(name) => {
                return Some((k, name));
            },
            None => {},
        }
        k = k + 1;
    }
    None
}

impl Model {
    /// Reads the model from the lines of its header: the name from the first
    /// line that gives one, then every structure after that line
    pub fn parse_header(lines: &Vec<String>) -> (r: Result<Model, HeaderError>)
        ensures
            match header_model(views(lines@)) {
                Some(m) => r is Ok && r->Ok_0@ == m,
                None => r == Err::<Model, HeaderError>(HeaderError::MissingName),
            },
    {
        let ghost ls = views(lines@);
        let n = lines.len();
        let (k, name) = match find_name(lines) {
            Some(found) => found,
            None => {
                return Err(HeaderError::MissingName);
            },
        };
        let mut model = Model { name, simulink: Vec::new() };
        let mut cursor: usize = k + 1;
        loop
            invariant
                cursor <= n == lines@.len(),
                ls == views(lines@),
                k < n,
                header_model(ls) == Some((model.name@, structures(ls, k + 1))),
                structs_view(model.simulink@) + structures(ls, cursor as int) == structures(
                    ls,
                    k + 1,
                ),
            decreases n - cursor,
        {
            let ghost before = cursor as int;
            let next = Simulink::parse_io(lines, &mut cursor);
            proof {
                lemma_seek_advances(ls, before);
            }
            match next {
                Some(s) => {
                    let ghost old_list = structs_view(model.simulink@);
                    model.simulink.push(s);
                    assert(structs_view(model.simulink@) =~= old_list.push(s@));
                    assert(old_list + structures(ls, before) =~= structs_view(model.simulink@)
                        + structures(ls, cursor as int));
                },
                None => {
                    assert(structs_view(model.simulink@) + structures(ls, before)
                        =~= structs_view(model.simulink@));
                    return Ok(model);
                },
            }
        }
    }
}

/// The `Default` impl of a structure set off by blank lines, or its serde impls.
pub open spec fn struct_text(defaults: bool, s: StructView) -> Seq<char> {
    if defaults {
        "\n"@ + default_struct_text(s) + "\n"@
    } else {
        struct_code_text(s)
    }
}

/// The `Default` impls of the structures, each set off by blank lines.
pub open spec fn defaults_text(structs: Seq<StructView>) -> Seq<char> {
    join(structs.map(|i: int, s: StructView| struct_text(true, s)), ""@)
}

/// The serde impls of the structures, one after the other.
pub open spec fn structs_code_text(structs: Seq<StructView>) -> Seq<char> {
    join(structs.map(|i: int, s: StructView| struct_text(false, s)), "\n"@)
}

/// The controller type of a model, with its inputs, outputs and states.
pub open spec fn controller_type_text(name: Seq<char>) -> Seq<char> {
    "\n/// Simulink controller wrapper\n#[derive(Clone, Copy, Debug, Default, ::serde::Serialize, ::serde::Deserialize)]\npub struct "@
        + name
        + " {\n    // Inputs Simulink structure\n    pub inputs: ExtU_"@
        + name
        + "_T,\n    // Outputs Simulink structure\n    pub outputs: ExtY_"@
        + name
        + "_T,\n    states: DW_"@
        + name
        + "_T,\n}\n"@
}

/// The constructor and the step function of the controller type.
pub open spec fn lifecycle_text(name: Seq<char>) -> Seq<char> {
    "\nimpl "@
        + name
        + " {\n    /// Creates a new controller\n    pub fn new() -> Self {\n        let mut this: Self = Default::default();\n        let mut data: RT_MODEL_"@
        + name
        + "_T = tag_RTM_"@
        + name
        + "_T {\n            dwork: &mut this.states as *mut _,\n        };\n        unsafe {\n            "@
        + name
        + "_initialize(&mut data as *mut _)\n        }\n        this\n    }\n    /// Steps the controller\n    pub fn step(&mut self) {\n        let mut data: RT_MODEL_"@
        + name
        + "_T = tag_RTM_"@
        + name
        + "_T {\n            dwork: &mut self.states as *mut _,\n        };\n        unsafe {\n            "@
        + name
        + "_step(\n                &mut data as *mut _,\n                &mut self.inputs as *mut _,\n                &mut self.outputs as *mut _,\n            )\n        }\n    }\n}\n"@
}

/// The Rust module for a model: the controller type with its three members,
/// the defaults, the constructor and step function, and the serde impls.
pub open spec fn model_code_text(m: (Seq<char>, Seq<StructView>)) -> Seq<char> {
    controller_type_text(m.0) + defaults_text(m.1) + lifecycle_text(m.0) + structs_code_text(m.1)
        + "\n"@
}

fn controller_type_string(name: &String) -> (r: String)
    ensures
    r@ == controller_type_text(name@),
{
    let mut out = String::from_str("\n/// Simulink controller wrapper\n#[derive(Clone, Copy, Debug, Default, ::serde::Serialize, ::serde::Deserialize)]\npub struct ");
    out.append(name.as_str());
    out.append(" {\n    // Inputs Simulink structure\n    pub inputs: ExtU_");
    out.append(name.as_str());
    out.append("_T,\n    // Outputs Simulink structure\n    pub outputs: ExtY_");
    out.append(name.as_str());
    out.append("_T,\n    states: DW_");
    out.append(name.as_str());
    out.append("_T,\n}\n");
    out
}

fn lifecycle_string(name: &String) -> (r: String)
    ensures
    r@ == lifecycle_text(name@),
{
    let mut out = String::from_str("\nimpl ");
    out.append(name.as_str());
    out.append(" {\n    /// Creates a new controller\n    pub fn new() -> Self {\n        let mut this: Self = Default::default();\n        let mut data: RT_MODEL_");
    out.append(name.as_str());
    out.append("_T = tag_RTM_");
    out.append(name.as_str());
    out.append("_T {\n            dwork: &mut this.states as *mut _,\n        };\n        unsafe {\n            ");
    out.append(name.as_str());
    out.append("_initialize(&mut data as *mut _)\n        }\n        this\n    }\n    /// Steps the controller\n    pub fn step(&mut self) {\n        let mut data: RT_MODEL_");
    out.append(name.as_str());
    out.append("_T = tag_RTM_");
    out.append(name.as_str());
    out.append("_T {\n            dwork: &mut self.states as *mut _,\n        };\n        unsafe {\n            ");
    out.append(name.as_str());
    out.append("_step(\n                &mut data as *mut _,\n                &mut self.inputs as *mut _,\n                &mut self.outputs as *mut _,\n            )\n        }\n    }\n}\n");
    out
}

/// The texts of each structure, `Default` impls or serde impls.
fn struct_texts(structs: &Vec<Simulink>, defaults: bool) -> (r: Vec<String>)
    ensures
        views(r@) == structs_view(structs@).map(|i: int, s: StructView| struct_text(defaults, s)),
{
    let mut out: Vec<String> = Vec::new();
    let mut i: usize = 0;
    while i < structs.len()
        invariant
            i <= structs@.len(),
            views(out@) == structs_view(structs@.subrange(0, i as int)).map(
                |i: int, s: StructView| struct_text(defaults, s),
            ),
        decreases structs@.len() - i,
    {
        let ghost before = out@;
        let t = if defaults {
            let mut d = String::from_str("\n");
            d.append(structs[i].default_as_string().as_str());
            d.append("\n");
            d
        } else {
            structs[i].to_string()
        };
        assert(t@ == struct_text(defaults, structs@[i as int]@));
        assert(structs_view(structs@.subrange(0, i + 1)) =~= structs_view(
            structs@.subrange(0, i as int),
        ).push(structs@[i as int]@));
        out.push(t);
        assert(views(out@) =~= views(before).push(t@));
        assert(structs_view(structs@.subrange(0, i + 1)).map(
            |i: int, s: StructView| struct_text(defaults, s),
        ) =~= structs_view(structs@.subrange(0, i as int)).map(
            |i: int, s: StructView| struct_text(defaults, s),
        ).push(struct_text(defaults, structs@[i as int]@)));
        i = i + 1;
    }
    assert(structs@.subrange(0, i as int) =~= structs@);
    out
}

impl Model {
    /// The Rust module that wraps this model
    pub fn to_string(&self) -> (r: String)
        ensures
            r@ == model_code_text(self@),
    {
        let ghost m = self@;
        let defaults = join_strings(&struct_texts(&self.simulink, true), "");
        let serde = join_strings(&struct_texts(&self.simulink, false), "\n");
        let mut out = controller_type_string(&self.name);
        out.append(defaults.as_str());
        out.append(lifecycle_string(&self.name).as_str());
        out.append(serde.as_str());
        out.append("\n");
        out
    }
}

} // verus!
