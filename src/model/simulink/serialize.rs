//! The serde serializer written for each structure.
use vstd::prelude::*;

use super::{FieldView, List, Part, SerializeImpl, Simulink, StructView, IO, field_parts, parts};
use crate::text::{decimal, decimal_string, join, join_strings, views};

verus! {

/// The statement that writes one member: an array is written as a `Vec`.
pub open spec fn serialize_field_text(f: FieldView) -> Seq<char> {
    let value = if f.2 is Some {
        "&Vec::from(&self."@ + f.1 + ")"@
    } else {
        "&self."@ + f.1
    };
    "\n        ::serde::ser::SerializeStruct::serialize_field(\n            &mut serde_state,\n            \""@
        + f.1 + "\",\n            "@ + value + ",\n        )?;\n"@
}

/// The statements that write the members, in declaration order.
pub open spec fn serialize_fields_text(fields: Seq<FieldView>) -> Seq<char> {
    join(fields.map(|i: int, f: FieldView| serialize_field_text(f)), "\n"@)
}

/// The `Serialize` impl of a structure: one field per member, in order.
pub open spec fn serialize_struct_text(s: StructView) -> Seq<char> {
    "\nimpl ::serde::ser::Serialize for "@ + s.0
        + " {\n    fn serialize<S>(&self, serializer: S) -> Result<S::Ok, S::Error>\n    where\n        S: ::serde::ser::Serializer,\n    {\n        let mut serde_state = ::serde::ser::Serializer::serialize_struct(serializer, \""@
        + s.0 + "\", "@ + decimal(s.1.len()) + ")?;\n"@ + serialize_fields_text(s.1)
        + "\n        ::serde::ser::SerializeStruct::end(serde_state)\n    }\n}\n"@
}

impl SerializeImpl for IO {
    fn serialize_impl(&self) -> (r: String)
        ensures
            r@ == serialize_field_text(self@),
    {
        let mut out = String::from_str(
            "\n        ::serde::ser::SerializeStruct::serialize_field(\n            &mut serde_state,\n            \"",
        );
        out.append(self.name.as_str());
        out.append("\",\n            ");
        if self.size.is_some() {
            out.append("&Vec::from(&self.");
            out.append(self.name.as_str());
            out.append(")");
        } else {
            out.append("&self.");
            out.append(self.name.as_str());
        }
        out.append(",\n        )?;\n");
        out
    }
}

impl SerializeImpl for List {
    fn serialize_impl(&self) -> (r: String)
        ensures
            r@ == serialize_fields_text(self@),
    {
        let p = field_parts(self, Part::Serialize);
        assert(parts(Part::Serialize, self@) =~= self@.map(
            |i: int, f: FieldView| serialize_field_text(f),
        ));
        join_strings(&p, "\n")
    }
}

impl SerializeImpl for Simulink {
    fn serialize_impl(&self) -> (r: String)
        ensures
            r@ == serialize_struct_text(self@),
    {
        let mut out = String::from_str("\nimpl ::serde::ser::Serialize for ");
        out.append(self.name.as_str());
        out.append(
            " {\n    fn serialize<S>(&self, serializer: S) -> Result<S::Ok, S::Error>\n    where\n        S: ::serde::ser::Serializer,\n    {\n        let mut serde_state = ::serde::ser::Serializer::serialize_struct(serializer, \"",
        );
        out.append(self.name.as_str());
        out.append("\", ");
        out.append(decimal_string(self.properties.0.len()).as_str());
        out.append(")?;\n");
        out.append(self.properties.serialize_impl().as_str());
        out.append("\n        ::serde::ser::SerializeStruct::end(serde_state)\n    }\n}\n");
        out
    }
}

} // verus!
