//! The serde deserializer written for each structure.
use vstd::prelude::*;

use super::{DeserializeImpl, FieldView, List, Part, Simulink, StructView, IO, field_parts, parts};
use crate::text::{decimal, decimal_string, join, join_strings};

verus! {

/// Writes the body of a serde visitor as Rust source
pub trait Visitor {
    fn visit(&self) -> String;

    fn visit_seq(&self) -> String;
}

/// What turns a decoded `Vec` into a fixed-size array, or rejects it.
pub const TO_ARRAY: &'static str = "\n    .try_into()\n    .map_err(|_| <A::Error as ::serde::de::Error>::invalid_value(::serde::de::Unexpected::Seq, &self))?;";

/// The type in which a member is decoded: a `Vec` for an array.
pub open spec fn value_type(f: FieldView) -> Seq<char> {
    if f.2 is Some {
        "Vec<"@ + f.0 + ">"@
    } else {
        f.0
    }
}

/// The annotation that gives an array member its fixed-size type.
pub open spec fn type_annotation(f: FieldView) -> Seq<char> {
    match f.2 {
        Some(n) => ": ["@ + f.0 + "; "@ + decimal(n as nat) + "]"@,
        None => Seq::empty(),
    }
}

/// What ends the statement that binds a decoded member.
pub open spec fn conversion(f: FieldView) -> Seq<char> {
    if f.2 is Some {
        TO_ARRAY@
    } else {
        ";"@
    }
}

/// The arm that maps a key to the member's identifier.
pub open spec fn match_arm_text(f: FieldView) -> Seq<char> {
    "\""@ + f.1 + "\" => Ok(Field::"@ + f.1 + ")"@
}

/// The arms for all members, separated by commas.
pub open spec fn match_arms_text(fields: Seq<FieldView>) -> Seq<char> {
    join(fields.map(|i: int, f: FieldView| match_arm_text(f)), ",\n"@)
}

/// What follows the members' arms before the arm for unknown keys: a comma,
/// unless there are no members.
pub open spec fn arms_separator(fields: Seq<FieldView>) -> Seq<char> {
    if fields.len() > 0 {
        ",\n"@
    } else {
        ""@
    }
}

/// What rejects a sequence that holds more than `n` elements.
pub open spec fn trailing_check_text(n: nat) -> Seq<char> {
    "if seq.next_element::<::serde::de::IgnoredAny>()?.is_some() {\n    return Err(<A::Error as ::serde::de::Error>::invalid_length("@
        + decimal(n) + " + 1, &self));\n}\n"@
}

/// The member names, quoted and separated by commas.
pub open spec fn quoted_names_text(fields: Seq<FieldView>) -> Seq<char> {
    join(fields.map(|i: int, f: FieldView| "\""@ + f.1 + "\""@), ", "@)
}

/// The member names, one per line.
pub open spec fn variants_text(fields: Seq<FieldView>) -> Seq<char> {
    join(fields.map(|i: int, f: FieldView| f.1), ",\n"@)
}

/// The slot in which the map visitor keeps a member until the end.
pub open spec fn declaration_text(f: FieldView) -> Seq<char> {
    "let mut "@ + f.1 + " = None;"@
}

/// The arm that reads a member's value from a map and rejects a second one.
pub open spec fn arm_text(f: FieldView) -> Seq<char> {
    "\n    Field::"@
        + f.1
        + " => {\n        if "@
        + f.1
        + ".is_some() {\n            return Err(::serde::de::Error::duplicate_field(\""@
        + f.1
        + "\"));\n        }\n        "@
        + f.1
        + " = Some(map.next_value::<"@
        + value_type(f)
        + ">()?);\n    }"@
}

/// The statement that rejects a missing member and fixes an array's length.
pub open spec fn finish_text(f: FieldView) -> Seq<char> {
    "let "@
        + f.1
        + type_annotation(f)
        + " = "@
        + f.1
        + "\n    .ok_or_else(|| <A::Error as ::serde::de::Error>::missing_field(\""@
        + f.1
        + "\"))?"@
        + conversion(f)
}

/// The statement that reads the `i`-th member from a sequence.
pub open spec fn element_text(f: FieldView, i: nat) -> Seq<char> {
    "let "@
        + f.1
        + type_annotation(f)
        + " = seq\n    .next_element::<"@
        + value_type(f)
        + ">()?\n    .ok_or_else(|| <A::Error as ::serde::de::Error>::invalid_length("@
        + decimal(i)
        + ", &self))?"@
        + conversion(f)
}

/// The body of the map visitor.
pub open spec fn visit_map_text(s: Seq<FieldView>) -> Seq<char> {
    join(s.map(|i: int, f: FieldView| declaration_text(f)), "\n"@)
        + "\nwhile let Some(key) = map.next_key::<Field>()? {\n    match key {\n"@
        + join(s.map(|i: int, f: FieldView| arm_text(f)), "\n"@)
        + "\n    }\n}\n"@
        + join(s.map(|i: int, f: FieldView| finish_text(f)), "\n"@)
        + "\n"@
}

/// The body of the sequence visitor.
pub open spec fn visit_seq_text(s: Seq<FieldView>) -> Seq<char> {
    join(s.map(|i: int, f: FieldView| element_text(f, i as nat)), "\n"@) + "\n"@
        + trailing_check_text(s.len())
}

/// The `Deserialize` impl of a structure, from a sequence or from a map.
pub open spec fn deserialize_struct_text(s: StructView) -> Seq<char> {
    "\nimpl<'de> ::serde::de::Deserialize<'de> for "@
        + s.0
        + " {\n    fn deserialize<D>(deserializer: D) -> Result<Self, D::Error>\n    where\n        D: ::serde::de::Deserializer<'de>,\n    {\n        const FIELDS: &'static [&'static str] = &["@
        + quoted_names_text(s.1)
        + "];\n\n        #[allow(non_camel_case_types)]\n        enum Field {\n"@
        + variants_text(s.1)
        + "\n        }\n\n        impl<'de> ::serde::de::Deserialize<'de> for Field {\n            fn deserialize<D>(deserializer: D) -> Result<Self, D::Error>\n            where\n                D: ::serde::de::Deserializer<'de>,\n            {\n                struct FieldVisitor;\n                impl<'de> ::serde::de::Visitor<'de> for FieldVisitor {\n                    type Value = Field;\n                    fn expecting(&self, formatter: &mut ::std::fmt::Formatter) -> ::std::fmt::Result {\n                        formatter.write_str(\"field identifier\")\n                    }\n\n                    fn visit_str<E>(self, value: &str) -> Result<Self::Value, E>\n                    where\n                        E: ::serde::de::Error,\n                    {\n                        match value {\n"@
        + match_arms_text(s.1)
        + arms_separator(s.1)
        + "_ => Err(::serde::de::Error::unknown_field(value, FIELDS)),\n                        }\n                    }\n                }\n                deserializer.deserialize_identifier(FieldVisitor)\n            }\n        }\n\n        struct SimulinkVisitor;\n        impl<'de> ::serde::de::Visitor<'de> for SimulinkVisitor {\n            type Value = "@
        + s.0
        + ";\n            fn expecting(&self, formatter: &mut ::std::fmt::Formatter) -> ::std::fmt::Result {\n                formatter.write_str(\"struct "@
        + s.0
        + " with "@
        + decimal(s.1.len())
        + " elements\")\n            }\n\n            fn visit_seq<A>(self, mut seq: A) -> Result<Self::Value, A::Error>\n            where\n                A: ::serde::de::SeqAccess<'de>,\n            {\n"@
        + visit_seq_text(s.1)
        + "Ok("@
        + s.0
        + " {\n"@
        + variants_text(s.1)
        + "\n})\n            }\n\n            fn visit_map<A>(self, mut map: A) -> Result<Self::Value, A::Error>\n            where\n                A: ::serde::de::MapAccess<'de>,\n            {\n"@
        + visit_map_text(s.1)
        + "Ok("@
        + s.0
        + " {\n"@
        + variants_text(s.1)
        + "\n})\n            }\n        }\n        deserializer.deserialize_struct(\""@
        + s.0
        + "\", FIELDS, SimulinkVisitor)\n    }\n}\n"@
}

fn value_type_string(f: &IO) -> (r: String)
    ensures
        r@ == value_type(f@),
{
    if f.size.is_some() {
        let mut out = String::from_str("Vec<");
        out.append(f.dtype.as_str());
        out.append(">");
        out
    } else {
        f.dtype.clone()
    }
}

fn annotation_string(f: &IO) -> (r: String)
    ensures
        r@ == type_annotation(f@),
{
    match f.size {
        Some(n) => {
            let mut out = String::from_str(": [");
            out.append(f.dtype.as_str());
            out.append("; ");
            out.append(decimal_string(n).as_str());
            out.append("]");
            out
        },
        None => String::new(),
    }
}

fn conversion_string(f: &IO) -> (r: &'static str)
    ensures
        r@ == conversion(f@),
{
    if f.size.is_some() {
        TO_ARRAY
    } else {
        ";"
    }
}

impl IO {
    /// The slot in which the map visitor keeps this member
    pub fn declaration(&self) -> (r: String)
        ensures
            r@ == declaration_text(self@),
    {
        let mut out = String::from_str("let mut ");
        out.append(self.name.as_str());
        out.append(" = None;");
        out
    }

    /// The arm of the map visitor that reads this member
    pub fn map_arm(&self) -> (r: String)
        ensures
            r@ == arm_text(self@),
    {
        let mut out = String::from_str("\n    Field::");
        out.append(self.name.as_str());
        out.append(" => {\n        if ");
        out.append(self.name.as_str());
        out.append(".is_some() {\n            return Err(::serde::de::Error::duplicate_field(\"");
        out.append(self.name.as_str());
        out.append("\"));\n        }\n        ");
        out.append(self.name.as_str());
        out.append(" = Some(map.next_value::<");
        out.append(value_type_string(self).as_str());
        out.append(">()?);\n    }");
        out
    }

    /// The statement that checks this member once the map is read
    pub fn finish(&self) -> (r: String)
        ensures
            r@ == finish_text(self@),
    {
        let annotation = annotation_string(self);
        let mut out = String::from_str("let ");
        out.append(self.name.as_str());
        out.append(annotation.as_str());
        out.append(" = ");
        out.append(self.name.as_str());
        out.append("\n    .ok_or_else(|| <A::Error as ::serde::de::Error>::missing_field(\"");
        out.append(self.name.as_str());
        out.append("\"))?");
        out.append(conversion_string(self));
        out
    }

    /// The statement that reads this member as the `i`-th of a sequence
    pub fn element(&self, i: usize) -> (r: String)
        ensures
            r@ == element_text(self@, i as nat),
    {
        let annotation = annotation_string(self);
        let position = decimal_string(i);
        let mut out = String::from_str("let ");
        out.append(self.name.as_str());
        out.append(annotation.as_str());
        out.append(" = seq\n    .next_element::<");
        out.append(value_type_string(self).as_str());
        out.append(">()?\n    .ok_or_else(|| <A::Error as ::serde::de::Error>::invalid_length(");
        out.append(position.as_str());
        out.append(", &self))?");
        out.append(conversion_string(self));
        out
    }
}

impl DeserializeImpl for IO {
    fn deserialize_impl(&self) -> (r: String)
        ensures
            r@ == match_arm_text(self@),
    {
        let mut out = String::from_str("\"");
        out.append(self.name.as_str());
        out.append("\" => Ok(Field::");
        out.append(self.name.as_str());
        out.append(")");
        out
    }
}

impl DeserializeImpl for List {
    fn deserialize_impl(&self) -> (r: String)
        ensures
            r@ == match_arms_text(self@),
    {
        let p = field_parts(self, Part::MatchArm);
        assert(parts(Part::MatchArm, self@) =~= self@.map(|i: int, f: FieldView| match_arm_text(f)));
        join_strings(&p, ",\n")
    }
}

impl List {
    fn joined(&self, part: Part, sep: &str) -> (r: String)
        ensures
            r@ == join(parts(part, self@), sep@),
    {
        let p = field_parts(self, part);
        join_strings(&p, sep)
    }
}

impl Visitor for List {
    fn visit(&self) -> (r: String)
        ensures
            r@ == visit_map_text(self@),
    {
        let decls = self.joined(Part::Declaration, "\n");
        let arms = self.joined(Part::Arm, "\n");
        let finishes = self.joined(Part::Finish, "\n");
        assert(parts(Part::Declaration, self@) =~= self@.map(|i: int, f: FieldView| declaration_text(f)));
        assert(parts(Part::Arm, self@) =~= self@.map(|i: int, f: FieldView| arm_text(f)));
        assert(parts(Part::Finish, self@) =~= self@.map(|i: int, f: FieldView| finish_text(f)));
        let mut out = decls;
        out.append("\nwhile let Some(key) = map.next_key::<Field>()? {\n    match key {\n");
        out.append(arms.as_str());
        out.append("\n    }\n}\n");
        out.append(finishes.as_str());
        out.append("\n");
        out
    }

    fn visit_seq(&self) -> (r: String)
        ensures
            r@ == visit_seq_text(self@),
    {
        let mut out = self.joined(Part::Element, "\n");
        assert(parts(Part::Element, self@) =~= self@.map(|i: int, f: FieldView| element_text(f, i as nat)));
        out.append("\n");
        out.append(
            "if seq.next_element::<::serde::de::IgnoredAny>()?.is_some() {\n    return Err(<A::Error as ::serde::de::Error>::invalid_length(",
        );
        out.append(decimal_string(self.0.len()).as_str());
        out.append(" + 1, &self));\n}\n");
        out
    }
}

impl DeserializeImpl for Simulink {
    fn deserialize_impl(&self) -> (r: String)
        ensures
            r@ == deserialize_struct_text(self@),
    {
        let ghost s = self@;
        let quoted = self.properties.joined(Part::Quoted, ", ");
        let variants = self.properties.joined(Part::Variant, ",\n");
        let arms = self.properties.deserialize_impl();
        let separator = if self.properties.0.len() > 0 {
            ",\n"
        } else {
            ""
        };
        let count = decimal_string(self.properties.0.len());
        let seq_body = self.properties.visit_seq();
        let map_body = self.properties.visit();
        assert(parts(Part::Quoted, s.1) =~= s.1.map(|i: int, f: FieldView| "\""@ + f.1 + "\""@));
        assert(parts(Part::Variant, s.1) =~= s.1.map(|i: int, f: FieldView| f.1));
        let mut out = String::from_str("\nimpl<'de> ::serde::de::Deserialize<'de> for ");
        out.append(self.name.as_str());
        out.append(" {\n    fn deserialize<D>(deserializer: D) -> Result<Self, D::Error>\n    where\n        D: ::serde::de::Deserializer<'de>,\n    {\n        const FIELDS: &'static [&'static str] = &[");
        out.append(quoted.as_str());
        out.append("];\n\n        #[allow(non_camel_case_types)]\n        enum Field {\n");
        out.append(variants.as_str());
        out.append("\n        }\n\n        impl<'de> ::serde::de::Deserialize<'de> for Field {\n            fn deserialize<D>(deserializer: D) -> Result<Self, D::Error>\n            where\n                D: ::serde::de::Deserializer<'de>,\n            {\n                struct FieldVisitor;\n                impl<'de> ::serde::de::Visitor<'de> for FieldVisitor {\n                    type Value = Field;\n                    fn expecting(&self, formatter: &mut ::std::fmt::Formatter) -> ::std::fmt::Result {\n                        formatter.write_str(\"field identifier\")\n                    }\n\n                    fn visit_str<E>(self, value: &str) -> Result<Self::Value, E>\n                    where\n                        E: ::serde::de::Error,\n                    {\n                        match value {\n");
        out.append(arms.as_str());
        out.append(separator);
        out.append("_ => Err(::serde::de::Error::unknown_field(value, FIELDS)),\n                        }\n                    }\n                }\n                deserializer.deserialize_identifier(FieldVisitor)\n            }\n        }\n\n        struct SimulinkVisitor;\n        impl<'de> ::serde::de::Visitor<'de> for SimulinkVisitor {\n            type Value = ");
        out.append(self.name.as_str());
        out.append(";\n            fn expecting(&self, formatter: &mut ::std::fmt::Formatter) -> ::std::fmt::Result {\n                formatter.write_str(\"struct ");
        out.append(self.name.as_str());
        out.append(" with ");
        out.append(count.as_str());
        out.append(" elements\")\n            }\n\n            fn visit_seq<A>(self, mut seq: A) -> Result<Self::Value, A::Error>\n            where\n                A: ::serde::de::SeqAccess<'de>,\n            {\n");
        out.append(seq_body.as_str());
        out.append("Ok(");
        out.append(self.name.as_str());
        out.append(" {\n");
        out.append(variants.as_str());
        out.append("\n})\n            }\n\n            fn visit_map<A>(self, mut map: A) -> Result<Self::Value, A::Error>\n            where\n                A: ::serde::de::MapAccess<'de>,\n            {\n");
        out.append(map_body.as_str());
        out.append("Ok(");
        out.append(self.name.as_str());
        out.append(" {\n");
        out.append(variants.as_str());
        out.append("\n})\n            }\n        }\n        deserializer.deserialize_struct(\"");
        out.append(self.name.as_str());
        out.append("\", FIELDS, SimulinkVisitor)\n    }\n}\n");
        out
    }
}

} // verus!
