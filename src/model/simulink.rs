//! One C structure of the header, its members, and how it is recognised.
use vstd::prelude::*;

use crate::pattern::{captures, group, group_at, groups_view, regex_captures};
use crate::text::{
    decimal, decimal_string, has_prefix, join, join_strings, parse_usize, parse_usize_str,
    starts_with, views,
};

mod deserialize;
mod serialize;

pub use deserialize::Visitor;

verus! {

/// A member declaration: type, name, and an optional array length.
/// The line holds nothing before the type and ends the declaration with `;`,
/// so that a comment is never read as a member.
pub const MEMBER_PATTERN: &'static str =
    r"^\s*(?P<dtype>\w+)\s+(?P<name>\w+)(?:\[(?P<size>\d+)\])?\s*;";

/// The line that closes a structure and gives its name; it begins with the
/// closing brace.
pub const CLOSING_PATTERN: &'static str = r"^\s*\}\s*(\w+)\s*;";

/// How a structure block opens.
pub const BLOCK_OPENING: &'static str = "typedef struct";

/// How the names of constant-parameter structures begin.
pub const CONST_PARAMETERS: &'static str = "ConstP";

/// What a member is: its type, its name and, for an array, its length.
pub type FieldView = (Seq<char>, Seq<char>, Option<usize>);

/// What a structure is: its name and its members in declaration order.
pub type StructView = (Seq<char>, Seq<FieldView>);

/// A structure member
#[derive(Debug, Default)]
pub struct IO {
    /// member type
    pub dtype: String,
    /// member name
    pub name: String,
    /// array length, for an array member
    pub size: Option<usize>,
}

impl View for IO {
    type V = FieldView;

    open spec fn view(&self) -> FieldView {
        (self.dtype@, self.name@, self.size)
    }
}

/// The array length that the text `size` gives, if any.
pub open spec fn size_of(size: Option<Seq<char>>) -> Option<usize> {
    match size {
        Some(s) => parse_usize(s),
        None => None,
    }
}

impl IO {
    /// Creates a new member; a length that does not read as a number is dropped
    pub fn new(dtype: &str, name: &str, size: Option<&str>) -> (r: Self)
        ensures
            r@ == (dtype@, name@, size_of(
                match size {
                    Some(s) => Some(s@),
                    None => None,
                },
            )),
    {
        IO {
            dtype: String::from_str(dtype),
            name: String::from_str(name),
            size: match size {
                Some(s) => parse_usize_str(s),
                None => None,
            },
        }
    }
}

/// The members of a structure, in declaration order
#[derive(Debug, Default)]
pub struct List(pub Vec<IO>);

/// The views of a sequence of members.
pub open spec fn fields_view(fields: Seq<IO>) -> Seq<FieldView> {
    fields.map_values(|f: IO| f@)
}

impl View for List {
    type V = Seq<FieldView>;

    open spec fn view(&self) -> Seq<FieldView> {
        fields_view(self.0@)
    }
}

/// A structure of the header
#[derive(Debug, Default)]
pub struct Simulink {
    pub name: String,
    pub properties: List,
}

impl View for Simulink {
    type V = StructView;

    open spec fn view(&self) -> StructView {
        (self.name@, self.properties@)
    }
}

/// Writes the serde serializer of a value as Rust source
pub trait SerializeImpl {
    fn serialize_impl(&self) -> String;
}

/// Writes the serde deserializer of a value as Rust source
pub trait DeserializeImpl {
    fn deserialize_impl(&self) -> String;
}

/// How a member is initialised by default: zero, or an array of zeros.
pub open spec fn default_field_text(f: FieldView) -> Seq<char> {
    match f.2 {
        Some(n) => f.1 + ": [Default::default(); "@ + decimal(n as nat) + "]"@,
        None => f.1 + ": Default::default()"@,
    }
}

/// The member initialisers of a `Default` impl, one per line.
pub open spec fn default_fields_text(fields: Seq<FieldView>) -> Seq<char> {
    "\n"@ + join(fields.map(|i: int, f: FieldView| default_field_text(f)), ",\n"@) + "\n"@
}

/// The `Default` impl of a structure.
pub open spec fn default_struct_text(s: StructView) -> Seq<char> {
    "\nimpl Default for "@ + s.0 + " {\n    fn default() -> Self {\n        Self { "@
        + default_fields_text(s.1) + " }\n    }\n}\n"@
}

/// The serde impls of a structure, serializer first.
pub open spec fn struct_code_text(s: StructView) -> Seq<char> {
    serialize::serialize_struct_text(s) + "\n"@ + deserialize::deserialize_struct_text(s) + "\n"@
}

impl IO {
    /// How this member is initialised by default
    pub fn default_field(&self) -> (r: String)
        ensures
            r@ == default_field_text(self@),
    {
        let mut out = self.name.clone();
        match self.size {
            Some(n) => {
                out.append(": [Default::default(); ");
                out.append(decimal_string(n).as_str());
                out.append("]");
            },
            None => {
                out.append(": Default::default()");
            },
        }
        out
    }
}

impl List {
    /// The member initialisers of a `Default` impl
    pub fn to_string(&self) -> (r: String)
        ensures
            r@ == default_fields_text(self@),
    {
        let p = field_parts(self, Part::Default);
        assert(parts(Part::Default, self@) =~= self@.map(|i: int, f: FieldView| default_field_text(f)));
        let mut out = String::from_str("\n");
        out.append(join_strings(&p, ",\n").as_str());
        out.append("\n");
        out
    }
}

impl Simulink {
    /// The `Default` impl of this structure as Rust source
    pub fn default_as_string(&self) -> (r: String)
        ensures
            r@ == default_struct_text(self@),
    {
        let mut out = String::from_str("\nimpl Default for ");
        out.append(self.name.as_str());
        out.append(" {\n    fn default() -> Self {\n        Self { ");
        out.append(self.properties.to_string().as_str());
        out.append(" }\n    }\n}\n");
        out
    }

    /// The serde impls of this structure as Rust source
    pub fn to_string(&self) -> (r: String)
        ensures
            r@ == struct_code_text(self@),
    {
        let mut out = self.serialize_impl();
        out.append("\n");
        out.append(self.deserialize_impl().as_str());
        out.append("\n");
        out
    }
}

/// The texts that are written once per member.
#[derive(Clone, Copy)]
pub(crate) enum Part {
    Default,
    Serialize,
    MatchArm,
    Quoted,
    Variant,
    Declaration,
    Arm,
    Finish,
    Element,
}

/// The text `part` for member `f`, the `i`-th of its structure.
pub(crate) open spec fn part_text(part: Part, f: FieldView, i: nat) -> Seq<char> {
    match part {
        Part::Default => default_field_text(f),
        Part::Serialize => serialize::serialize_field_text(f),
        Part::MatchArm => deserialize::match_arm_text(f),
        Part::Quoted => "\""@ + f.1 + "\""@,
        Part::Variant => f.1,
        Part::Declaration => deserialize::declaration_text(f),
        Part::Arm => deserialize::arm_text(f),
        Part::Finish => deserialize::finish_text(f),
        Part::Element => deserialize::element_text(f, i),
    }
}

/// The texts `part` for each member, in order.
pub(crate) open spec fn parts(part: Part, fields: Seq<FieldView>) -> Seq<Seq<char>> {
    fields.map(|i: int, f: FieldView| part_text(part, f, i as nat))
}

fn part_string(part: Part, f: &IO, i: usize) -> (r: String)
    ensures
        r@ == part_text(part, f@, i as nat),
{
    match part {
        Part::Default => f.default_field(),
        Part::Serialize => f.serialize_impl(),
        Part::MatchArm => f.deserialize_impl(),
        Part::Quoted => {
            let mut out = String::from_str("\"");
            out.append(f.name.as_str());
            out.append("\"");
            out
        },
        Part::Variant => f.name.clone(),
        Part::Declaration => f.declaration(),
        Part::Arm => f.map_arm(),
        Part::Finish => f.finish(),
        Part::Element => f.element(i),
    }
}

/// The texts `part` for each member of `fields`, in order.
pub(crate) fn field_parts(fields: &List, part: Part) -> (r: Vec<String>)
    ensures
        views(r@) == parts(part, fields@),
{
    let mut out: Vec<String> = Vec::new();
    let mut i: usize = 0;
    while i < fields.0.len()
        invariant
            i <= fields.0@.len(),
            views(out@) == parts(part, fields@.subrange(0, i as int)),
        decreases fields.0@.len() - i,
    {
        let ghost before = out@;
        let t = part_string(part, &fields.0[i], i);
        out.push(t);
        assert(views(out@) =~= views(before).push(t@));
        assert(parts(part, fields@.subrange(0, i + 1)) =~= parts(
            part,
            fields@.subrange(0, i as int),
        ).push(part_text(part, fields.0@[i as int]@, i as nat)));
        i = i + 1;
    }
    assert(fields@.subrange(0, i as int) =~= fields@);
    out
}

/// The view of an optional structure.
pub open spec fn opt_view(s: Option<Simulink>) -> Option<StructView> {
    match s {
        Some(s) => Some(s@),
        None => None,
    }
}

/// The member that `line` declares, if it declares one.
pub open spec fn member_of(line: Seq<char>) -> Option<FieldView> {
    match regex_captures(MEMBER_PATTERN@, line) {
        Some(g) => match (group(g, 1), group(g, 2)) {
            (Some(dtype), Some(name)) => Some((dtype, name, size_of(group(g, 3)))),
            _ => None,
        },
        None => None,
    }
}

/// The name that `line` gives when it closes a structure.
pub open spec fn closing_of(line: Seq<char>) -> Option<Seq<char>> {
    match regex_captures(CLOSING_PATTERN@, line) {
        Some(g) => group(g, 1),
        None => None,
    }
}

/// Whether `line` opens a structure block.
pub open spec fn opens_block(line: Seq<char>) -> bool {
    has_prefix(line, BLOCK_OPENING@)
}

/// Whether a structure of this name holds constant parameters.
pub open spec fn is_const_parameters(name: Seq<char>) -> bool {
    has_prefix(name, CONST_PARAMETERS@)
}

/// Seeking from `pos`: the next structure that is kept and the position after
/// it; nothing, and the end, when none is left.
pub open spec fn seek(lines: Seq<Seq<char>>, pos: int) -> (Option<StructView>, int)
    decreases lines.len() - pos,
{
    if pos >= lines.len() {
        (None, pos)
    } else if opens_block(lines[pos]) {
        collect(lines, pos + 1, Seq::empty())
    } else {
        seek(lines, pos + 1)
    }
}

/// Collecting from `pos`, with the members `fields` read so far: a closing
/// line ends the block, which is kept unless it holds constant parameters.
/// The closing pattern is tried first, so a closing line is never read as a
/// member, whatever follows its `;`.
pub open spec fn collect(lines: Seq<Seq<char>>, pos: int, fields: Seq<FieldView>) -> (
    Option<StructView>,
    int,
)
    decreases lines.len() - pos,
{
    if pos >= lines.len() {
        (None, pos)
    } else {
        match closing_of(lines[pos]) {
            Some(name) => if is_const_parameters(name) {
                seek(lines, pos + 1)
            } else {
                (Some((name, fields)), pos + 1)
            },
            None => match member_of(lines[pos]) {
                Some(f) => collect(lines, pos + 1, fields.push(f)),
                None => collect(lines, pos + 1, fields),
            },
        }
    }
}

/// A structure found by seeking or collecting lies before the position that
/// comes back, and that position is at most the end.
pub proof fn lemma_seek_advances(lines: Seq<Seq<char>>, pos: int)
    ensures
        seek(lines, pos).0 is Some ==> pos < seek(lines, pos).1 <= lines.len(),
    decreases lines.len() - pos, 1int,
{
    if pos < lines.len() {
        if opens_block(lines[pos]) {
            lemma_collect_advances(lines, pos + 1, Seq::empty());
        } else {
            lemma_seek_advances(lines, pos + 1);
        }
    }
}

/// As `lemma_seek_advances`, while collecting.
pub proof fn lemma_collect_advances(lines: Seq<Seq<char>>, pos: int, fields: Seq<FieldView>)
    ensures
        collect(lines, pos, fields).0 is Some ==> pos < collect(lines, pos, fields).1
            <= lines.len(),
    decreases lines.len() - pos, 0int,
{
    if pos < lines.len() {
        match closing_of(lines[pos]) {
            Some(name) => if is_const_parameters(name) {
                lemma_seek_advances(lines, pos + 1);
            },
            None => match member_of(lines[pos]) {
                Some(f) => lemma_collect_advances(lines, pos + 1, fields.push(f)),
                None => lemma_collect_advances(lines, pos + 1, fields),
            },
        }
    }
}

/// Every structure kept from line `pos` on, in the order of the lines.
pub open spec fn structures(lines: Seq<Seq<char>>, pos: int) -> Seq<StructView>
    decreases lines.len() - pos,
{
    if pos >= lines.len() {
        Seq::empty()
    } else {
        let (found, next) = seek(lines, pos);
        match found {
            Some(s) => {
                proof {
                    lemma_seek_advances(lines, pos);
                }
                seq![s] + structures(lines, next)
            },
            None => Seq::empty(),
        }
    }
}

/// A structure that seeking finds never holds constant parameters.
pub proof fn lemma_seek_keeps(lines: Seq<Seq<char>>, pos: int)
    ensures
        seek(lines, pos).0 is Some ==> !is_const_parameters(seek(lines, pos).0->Some_0.0),
    decreases lines.len() - pos, 1int,
{
    if pos < lines.len() {
        if opens_block(lines[pos]) {
            lemma_collect_keeps(lines, pos + 1, Seq::empty());
        } else {
            lemma_seek_keeps(lines, pos + 1);
        }
    }
}

/// As `lemma_seek_keeps`, while collecting.
pub proof fn lemma_collect_keeps(lines: Seq<Seq<char>>, pos: int, fields: Seq<FieldView>)
    ensures
        collect(lines, pos, fields).0 is Some ==> !is_const_parameters(
            collect(lines, pos, fields).0->Some_0.0,
        ),
    decreases lines.len() - pos, 0int,
{
    if pos < lines.len() {
        match closing_of(lines[pos]) {
            Some(name) => if is_const_parameters(name) {
                lemma_seek_keeps(lines, pos + 1);
            },
            None => match member_of(lines[pos]) {
                Some(f) => lemma_collect_keeps(lines, pos + 1, fields.push(f)),
                None => lemma_collect_keeps(lines, pos + 1, fields),
            },
        }
    }
}

/// No structure read from the lines, from any position on, is a block of
/// constant parameters.
pub proof fn law_const_parameters_discarded(lines: Seq<Seq<char>>, pos: int)
    ensures
        forall|i: int|
            0 <= i < structures(lines, pos).len() ==> !is_const_parameters(
                #[trigger] structures(lines, pos)[i].0,
            ),
    decreases lines.len() - pos,
{
    if pos < lines.len() {
        let (found, next) = seek(lines, pos);
        if found is Some {
            lemma_seek_advances(lines, pos);
            lemma_seek_keeps(lines, pos);
            law_const_parameters_discarded(lines, next);
            assert forall|i: int| 0 <= i < structures(lines, pos).len() implies !is_const_parameters(
                #[trigger] structures(lines, pos)[i].0,
            ) by {
                if i > 0 {
                    assert(structures(lines, pos)[i] == structures(lines, next)[i - 1]);
                }
            }
        }
    }
}

proof fn lemma_collect_to_close(
    lines: Seq<Seq<char>>,
    pos: int,
    close: int,
    fields: Seq<FieldView>,
)
    requires
        0 <= pos <= close < lines.len(),
        closing_of(lines[close]) is Some,
        is_const_parameters(closing_of(lines[close])->Some_0),
        forall|k: int| pos <= k < close ==> closing_of(#[trigger] lines[k]) is None,
    ensures
        collect(lines, pos, fields) == seek(lines, close + 1),
    decreases close - pos,
{
    if pos < close {
        match member_of(lines[pos]) {
            Some(f) => lemma_collect_to_close(lines, pos + 1, close, fields.push(f)),
            None => lemma_collect_to_close(lines, pos + 1, close, fields),
        }
    }
}

/// A block of constant parameters, opened at line `open` and closed at line
/// `close`, leaves no trace: scanning from its opening line finds what
/// scanning from the line after its closing line finds.
pub proof fn law_discard_resumes(lines: Seq<Seq<char>>, open: int, close: int)
    requires
        0 <= open < close < lines.len(),
        opens_block(lines[open]),
        closing_of(lines[close]) is Some,
        is_const_parameters(closing_of(lines[close])->Some_0),
        forall|k: int| open < k < close ==> closing_of(#[trigger] lines[k]) is None,
    ensures
        seek(lines, open) == seek(lines, close + 1),
        structures(lines, open) == structures(lines, close + 1),
{
    lemma_collect_to_close(lines, open + 1, close, Seq::empty());
}

/// The members that lines `from` up to `to`, not included, declare.
pub open spec fn members(lines: Seq<Seq<char>>, from: int, to: int) -> Seq<FieldView>
    decreases to - from,
{
    if from >= to {
        Seq::empty()
    } else {
        match member_of(lines[from]) {
            Some(f) => seq![f] + members(lines, from + 1, to),
            None => members(lines, from + 1, to),
        }
    }
}

/// Whether every block opened from line `pos` up to line `end` is closed
/// before `end`, so that the scanner is between blocks when it reaches `end`.
pub open spec fn between_blocks(lines: Seq<Seq<char>>, pos: int, end: int) -> bool {
    forall|i: int|
        pos <= i < end && opens_block(#[trigger] lines[i]) ==> exists|j: int|
            i < j < end && (#[trigger] closing_of(lines[j])) is Some
}

/// Collecting stops at the first closing line `c`: it either resumes seeking
/// after it or hands back a structure and the line after it.
proof fn lemma_collect_closes(
    lines: Seq<Seq<char>>,
    pos: int,
    end: int,
    fields: Seq<FieldView>,
) -> (c: int)
    requires
        0 <= pos <= end < lines.len(),
        closing_of(lines[end]) is Some,
    ensures
        pos <= c <= end,
        collect(lines, pos, fields) == seek(lines, c + 1) || (collect(lines, pos, fields).0 is Some
            && collect(lines, pos, fields).1 == c + 1),
    decreases end - pos,
{
    if closing_of(lines[pos]) is Some {
        pos
    } else {
        match member_of(lines[pos]) {
            Some(f) => lemma_collect_closes(lines, pos + 1, end, fields.push(f)),
            None => lemma_collect_closes(lines, pos + 1, end, fields),
        }
    }
}

/// Between blocks at `end`, what is read from `pos` ends with what is read
/// from `end`.
proof fn lemma_structures_suffix(lines: Seq<Seq<char>>, pos: int, end: int) -> (before: Seq<
    StructView,
>)
    requires
        0 <= pos <= end <= lines.len(),
        between_blocks(lines, pos, end),
    ensures
        structures(lines, pos) == before + structures(lines, end),
    decreases end - pos,
{
    if pos == end {
        assert(structures(lines, pos) =~= Seq::<StructView>::empty() + structures(lines, end));
        Seq::empty()
    } else if !opens_block(lines[pos]) {
        assert(between_blocks(lines, pos + 1, end));
        assert(structures(lines, pos) == structures(lines, pos + 1));
        lemma_structures_suffix(lines, pos + 1, end)
    } else {
        let j = choose|j: int| pos < j < end && (#[trigger] closing_of(lines[j])) is Some;
        let c = lemma_collect_closes(lines, pos + 1, j, Seq::empty());
        assert(between_blocks(lines, c + 1, end));
        let rest = lemma_structures_suffix(lines, c + 1, end);
        if seek(lines, pos) == seek(lines, c + 1) {
            assert(structures(lines, pos) == structures(lines, c + 1));
            rest
        } else {
            let found = seek(lines, pos).0->Some_0;
            assert(structures(lines, pos) == seq![found] + structures(lines, c + 1));
            assert(structures(lines, pos) =~= (seq![found] + rest) + structures(lines, end));
            seq![found] + rest
        }
    }
}

proof fn lemma_collect_kept(lines: Seq<Seq<char>>, pos: int, close: int, fields: Seq<FieldView>)
    requires
        0 <= pos <= close < lines.len(),
        closing_of(lines[close]) is Some,
        !is_const_parameters(closing_of(lines[close])->Some_0),
        forall|k: int| pos <= k < close ==> closing_of(#[trigger] lines[k]) is None,
    ensures
        collect(lines, pos, fields) == (
            Some((closing_of(lines[close])->Some_0, fields + members(lines, pos, close))),
            close + 1,
        ),
    decreases close - pos,
{
    if pos == close {
        assert(fields + members(lines, pos, close) =~= fields);
    } else {
        match member_of(lines[pos]) {
            Some(f) => {
                lemma_collect_kept(lines, pos + 1, close, fields.push(f));
                assert(fields.push(f) + members(lines, pos + 1, close) =~= fields + members(
                    lines,
                    pos,
                    close,
                ));
            },
            None => lemma_collect_kept(lines, pos + 1, close, fields),
        }
    }
}

/// A block that the scanner meets between blocks, and that closes under a
/// name not of constant parameters, is among the structures read: with that
/// name and the members of its lines, and after a block of constant
/// parameters as well as anywhere else.
pub proof fn law_closed_block_kept(lines: Seq<Seq<char>>, pos: int, open: int, close: int)
    requires
        0 <= pos <= open < close < lines.len(),
        between_blocks(lines, pos, open),
        opens_block(lines[open]),
        closing_of(lines[close]) is Some,
        !is_const_parameters(closing_of(lines[close])->Some_0),
        forall|k: int| open < k < close ==> closing_of(#[trigger] lines[k]) is None,
    ensures
        structures(lines, pos).contains(
            (closing_of(lines[close])->Some_0, members(lines, open + 1, close)),
        ),
{
    let block = (closing_of(lines[close])->Some_0, members(lines, open + 1, close));
    lemma_collect_kept(lines, open + 1, close, Seq::empty());
    assert(Seq::<FieldView>::empty() + members(lines, open + 1, close) =~= members(
        lines,
        open + 1,
        close,
    ));
    assert(structures(lines, open) == seq![block] + structures(lines, close + 1));
    let before = lemma_structures_suffix(lines, pos, open);
    assert(structures(lines, pos)[before.len() as int] == block);
}

/// The member that `line` declares.
fn member_line(line: &str) -> (r: Option<IO>)
    ensures
        match r {
            Some(f) => member_of(line@) == Some(f@),
            None => member_of(line@) is None,
        },
{
    let groups = captures(MEMBER_PATTERN, line)?;
    let dtype = group_at(&groups, 1)?;
    let name = group_at(&groups, 2)?;
    let size = group_at(&groups, 3);
    let size_text = match &size {
        Some(s) => Some(s.as_str()),
        None => None,
    };
    Some(IO::new(dtype.as_str(), name.as_str(), size_text))
}

/// The name that `line` gives when it closes a structure.
fn closing_name(line: &str) -> (r: Option<String>)
    ensures
        match r {
            Some(n) => closing_of(line@) == Some(n@),
            None => closing_of(line@) is None,
        },
{
    let groups = captures(CLOSING_PATTERN, line)?;
    group_at(&groups, 1)
}

impl Simulink {
    /// Reads the next structure of the header from line `*cursor` on, and moves
    /// the cursor past it; a block that holds constant parameters is skipped,
    /// and a block that never closes ends the search
    pub fn parse_io(lines: &Vec<String>, cursor: &mut usize) -> (r: Option<Self>)
        ensures
            (opt_view(r), *final(cursor) as int) == seek(views(lines@), *old(cursor) as int),
    {
        let ghost ls = views(lines@);
        let ghost start = *cursor as int;
        let n = lines.len();
        let mut i: usize = *cursor;
        let mut collecting = false;
        let mut props: Vec<IO> = Vec::new();
        while i < n
            invariant
                n == lines@.len(),
                ls == views(lines@),
                start == *old(cursor) as int,
                (if collecting {
                    collect(ls, i as int, fields_view(props@))
                } else {
                    seek(ls, i as int)
                }) == seek(ls, start),
            decreases n - i,
        {
            let line = lines[i].as_str();
            assert(ls[i as int] == line@);
            if !collecting {
                if starts_with(line, BLOCK_OPENING) {
                    collecting = true;
                    props = Vec::new();
                    assert(fields_view(props@) =~= Seq::<FieldView>::empty());
                }
            } else {
                match closing_name(line) {
                    Some(name) => {
                        if starts_with(name.as_str(), CONST_PARAMETERS) {
                            collecting = false;
                        } else {
                            *cursor = i + 1;
                            let r = Simulink { name, properties: List(props) };
                            return Some(r);
                        }
                    },
                    None => {
                        match member_line(line) {
                            Some(f) => {
                                let ghost before = fields_view(props@);
                                props.push(f);
                                assert(fields_view(props@) =~= before.push(f@));
                            },
                            None => {},
                        }
                    },
                }
            }
            i = i + 1;
        }
        *cursor = i;
        None
    }
}

} // verus!
