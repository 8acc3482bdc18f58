use simulink_rs::{DeserializeImpl, List, SerializeImpl, Simulink, IO};

fn foo() -> Simulink {
    Simulink {
        name: String::from("ExtU_Foo_T"),
        properties: List(vec![IO::new("real_T", "a", Some("3")), IO::new("real_T", "b", None)]),
    }
}

fn m1() -> Simulink {
    Simulink {
        name: String::from("ExtU_M1SA_Control_CS_T"),
        properties: List(vec![
            IO::new("real_T", "LC_FxyzMxyz_CG", Some("2")),
            IO::new("real_T", "SA_offsetF_cmd", Some("306")),
            IO::new("real_T", "scalar", None),
        ]),
    }
}

const FOO_CODE: &str = r##"
impl ::serde::ser::Serialize for ExtU_Foo_T {
    fn serialize<S>(&self, serializer: S) -> Result<S::Ok, S::Error>
    where
        S: ::serde::ser::Serializer,
    {
        let mut serde_state = ::serde::ser::Serializer::serialize_struct(serializer, "ExtU_Foo_T", 2)?;

        ::serde::ser::SerializeStruct::serialize_field(
            &mut serde_state,
            "a",
            &Vec::from(&self.a),
        )?;


        ::serde::ser::SerializeStruct::serialize_field(
            &mut serde_state,
            "b",
            &self.b,
        )?;

        ::serde::ser::SerializeStruct::end(serde_state)
    }
}


impl<'de> ::serde::de::Deserialize<'de> for ExtU_Foo_T {
    fn deserialize<D>(deserializer: D) -> Result<Self, D::Error>
    where
        D: ::serde::de::Deserializer<'de>,
    {
        const FIELDS: &'static [&'static str] = &["a", "b"];

        #[allow(non_camel_case_types)]
        enum Field {
a,
b
        }

        impl<'de> ::serde::de::Deserialize<'de> for Field {
            fn deserialize<D>(deserializer: D) -> Result<Self, D::Error>
            where
                D: ::serde::de::Deserializer<'de>,
            {
                struct FieldVisitor;
                impl<'de> ::serde::de::Visitor<'de> for FieldVisitor {
                    type Value = Field;
                    fn expecting(&self, formatter: &mut ::std::fmt::Formatter) -> ::std::fmt::Result {
                        formatter.write_str("field identifier")
                    }

                    fn visit_str<E>(self, value: &str) -> Result<Self::Value, E>
                    where
                        E: ::serde::de::Error,
                    {
                        match value {
"a" => Ok(Field::a),
"b" => Ok(Field::b),
_ => Err(::serde::de::Error::unknown_field(value, FIELDS)),
                        }
                    }
                }
                deserializer.deserialize_identifier(FieldVisitor)
            }
        }

        struct SimulinkVisitor;
        impl<'de> ::serde::de::Visitor<'de> for SimulinkVisitor {
            type Value = ExtU_Foo_T;
            fn expecting(&self, formatter: &mut ::std::fmt::Formatter) -> ::std::fmt::Result {
                formatter.write_str("struct ExtU_Foo_T with 2 elements")
            }

            fn visit_seq<A>(self, mut seq: A) -> Result<Self::Value, A::Error>
            where
                A: ::serde::de::SeqAccess<'de>,
            {
let a: [real_T; 3] = seq
    .next_element::<Vec<real_T>>()?
    .ok_or_else(|| <A::Error as ::serde::de::Error>::invalid_length(0, &self))?
    .try_into()
    .map_err(|_| <A::Error as ::serde::de::Error>::invalid_value(::serde::de::Unexpected::Seq, &self))?;
let b = seq
    .next_element::<real_T>()?
    .ok_or_else(|| <A::Error as ::serde::de::Error>::invalid_length(1, &self))?;
if seq.next_element::<::serde::de::IgnoredAny>()?.is_some() {
    return Err(<A::Error as ::serde::de::Error>::invalid_length(2 + 1, &self));
}
Ok(ExtU_Foo_T {
a,
b
})
            }

            fn visit_map<A>(self, mut map: A) -> Result<Self::Value, A::Error>
            where
                A: ::serde::de::MapAccess<'de>,
            {
let mut a = None;
let mut b = None;
while let Some(key) = map.next_key::<Field>()? {
    match key {

    Field::a => {
        if a.is_some() {
            return Err(::serde::de::Error::duplicate_field("a"));
        }
        a = Some(map.next_value::<Vec<real_T>>()?);
    }

    Field::b => {
        if b.is_some() {
            return Err(::serde::de::Error::duplicate_field("b"));
        }
        b = Some(map.next_value::<real_T>()?);
    }
    }
}
let a: [real_T; 3] = a
    .ok_or_else(|| <A::Error as ::serde::de::Error>::missing_field("a"))?
    .try_into()
    .map_err(|_| <A::Error as ::serde::de::Error>::invalid_value(::serde::de::Unexpected::Seq, &self))?;
let b = b
    .ok_or_else(|| <A::Error as ::serde::de::Error>::missing_field("b"))?;
Ok(ExtU_Foo_T {
a,
b
})
            }
        }
        deserializer.deserialize_struct("ExtU_Foo_T", FIELDS, SimulinkVisitor)
    }
}

"##;

const M1_CODE: &str = r##"
impl ::serde::ser::Serialize for ExtU_M1SA_Control_CS_T {
    fn serialize<S>(&self, serializer: S) -> Result<S::Ok, S::Error>
    where
        S: ::serde::ser::Serializer,
    {
        let mut serde_state = ::serde::ser::Serializer::serialize_struct(serializer, "ExtU_M1SA_Control_CS_T", 3)?;

        ::serde::ser::SerializeStruct::serialize_field(
            &mut serde_state,
            "LC_FxyzMxyz_CG",
            &Vec::from(&self.LC_FxyzMxyz_CG),
        )?;


        ::serde::ser::SerializeStruct::serialize_field(
            &mut serde_state,
            "SA_offsetF_cmd",
            &Vec::from(&self.SA_offsetF_cmd),
        )?;


        ::serde::ser::SerializeStruct::serialize_field(
            &mut serde_state,
            "scalar",
            &self.scalar,
        )?;

        ::serde::ser::SerializeStruct::end(serde_state)
    }
}


impl<'de> ::serde::de::Deserialize<'de> for ExtU_M1SA_Control_CS_T {
    fn deserialize<D>(deserializer: D) -> Result<Self, D::Error>
    where
        D: ::serde::de::Deserializer<'de>,
    {
        const FIELDS: &'static [&'static str] = &["LC_FxyzMxyz_CG", "SA_offsetF_cmd", "scalar"];

        #[allow(non_camel_case_types)]
        enum Field {
LC_FxyzMxyz_CG,
SA_offsetF_cmd,
scalar
        }

        impl<'de> ::serde::de::Deserialize<'de> for Field {
            fn deserialize<D>(deserializer: D) -> Result<Self, D::Error>
            where
                D: ::serde::de::Deserializer<'de>,
            {
                struct FieldVisitor;
                impl<'de> ::serde::de::Visitor<'de> for FieldVisitor {
                    type Value = Field;
                    fn expecting(&self, formatter: &mut ::std::fmt::Formatter) -> ::std::fmt::Result {
                        formatter.write_str("field identifier")
                    }

                    fn visit_str<E>(self, value: &str) -> Result<Self::Value, E>
                    where
                        E: ::serde::de::Error,
                    {
                        match value {
"LC_FxyzMxyz_CG" => Ok(Field::LC_FxyzMxyz_CG),
"SA_offsetF_cmd" => Ok(Field::SA_offsetF_cmd),
"scalar" => Ok(Field::scalar),
_ => Err(::serde::de::Error::unknown_field(value, FIELDS)),
                        }
                    }
                }
                deserializer.deserialize_identifier(FieldVisitor)
            }
        }

        struct SimulinkVisitor;
        impl<'de> ::serde::de::Visitor<'de> for SimulinkVisitor {
            type Value = ExtU_M1SA_Control_CS_T;
            fn expecting(&self, formatter: &mut ::std::fmt::Formatter) -> ::std::fmt::Result {
                formatter.write_str("struct ExtU_M1SA_Control_CS_T with 3 elements")
            }

            fn visit_seq<A>(self, mut seq: A) -> Result<Self::Value, A::Error>
            where
                A: ::serde::de::SeqAccess<'de>,
            {
let LC_FxyzMxyz_CG: [real_T; 2] = seq
    .next_element::<Vec<real_T>>()?
    .ok_or_else(|| <A::Error as ::serde::de::Error>::invalid_length(0, &self))?
    .try_into()
    .map_err(|_| <A::Error as ::serde::de::Error>::invalid_value(::serde::de::Unexpected::Seq, &self))?;
let SA_offsetF_cmd: [real_T; 306] = seq
    .next_element::<Vec<real_T>>()?
    .ok_or_else(|| <A::Error as ::serde::de::Error>::invalid_length(1, &self))?
    .try_into()
    .map_err(|_| <A::Error as ::serde::de::Error>::invalid_value(::serde::de::Unexpected::Seq, &self))?;
let scalar = seq
    .next_element::<real_T>()?
    .ok_or_else(|| <A::Error as ::serde::de::Error>::invalid_length(2, &self))?;
if seq.next_element::<::serde::de::IgnoredAny>()?.is_some() {
    return Err(<A::Error as ::serde::de::Error>::invalid_length(3 + 1, &self));
}
Ok(ExtU_M1SA_Control_CS_T {
LC_FxyzMxyz_CG,
SA_offsetF_cmd,
scalar
})
            }

            fn visit_map<A>(self, mut map: A) -> Result<Self::Value, A::Error>
            where
                A: ::serde::de::MapAccess<'de>,
            {
let mut LC_FxyzMxyz_CG = None;
let mut SA_offsetF_cmd = None;
let mut scalar = None;
while let Some(key) = map.next_key::<Field>()? {
    match key {

    Field::LC_FxyzMxyz_CG => {
        if LC_FxyzMxyz_CG.is_some() {
            return Err(::serde::de::Error::duplicate_field("LC_FxyzMxyz_CG"));
        }
        LC_FxyzMxyz_CG = Some(map.next_value::<Vec<real_T>>()?);
    }

    Field::SA_offsetF_cmd => {
        if SA_offsetF_cmd.is_some() {
            return Err(::serde::de::Error::duplicate_field("SA_offsetF_cmd"));
        }
        SA_offsetF_cmd = Some(map.next_value::<Vec<real_T>>()?);
    }

    Field::scalar => {
        if scalar.is_some() {
            return Err(::serde::de::Error::duplicate_field("scalar"));
        }
        scalar = Some(map.next_value::<real_T>()?);
    }
    }
}
let LC_FxyzMxyz_CG: [real_T; 2] = LC_FxyzMxyz_CG
    .ok_or_else(|| <A::Error as ::serde::de::Error>::missing_field("LC_FxyzMxyz_CG"))?
    .try_into()
    .map_err(|_| <A::Error as ::serde::de::Error>::invalid_value(::serde::de::Unexpected::Seq, &self))?;
let SA_offsetF_cmd: [real_T; 306] = SA_offsetF_cmd
    .ok_or_else(|| <A::Error as ::serde::de::Error>::missing_field("SA_offsetF_cmd"))?
    .try_into()
    .map_err(|_| <A::Error as ::serde::de::Error>::invalid_value(::serde::de::Unexpected::Seq, &self))?;
let scalar = scalar
    .ok_or_else(|| <A::Error as ::serde::de::Error>::missing_field("scalar"))?;
Ok(ExtU_M1SA_Control_CS_T {
LC_FxyzMxyz_CG,
SA_offsetF_cmd,
scalar
})
            }
        }
        deserializer.deserialize_struct("ExtU_M1SA_Control_CS_T", FIELDS, SimulinkVisitor)
    }
}

"##;

#[test]
fn serde_code_of_two_member_struct() {
    assert_eq!(foo().to_string(), FOO_CODE);
}

#[test]
fn serde_code_of_three_member_struct() {
    assert_eq!(m1().to_string(), M1_CODE);
}

#[test]
fn serializer_writes_each_member_once() {
    let code = foo().serialize_impl();
    assert_eq!(code.matches("serialize_field(").count(), 2);
    assert!(code.contains("serialize_struct(serializer, \"ExtU_Foo_T\", 2)"));
    assert!(code.contains("&Vec::from(&self.a)"));
    assert!(code.contains("&self.b,"));
}

#[test]
fn deserializer_checks_every_member() {
    let code = foo().deserialize_impl();
    assert!(code.contains("duplicate_field(\"a\")"));
    assert!(code.contains("duplicate_field(\"b\")"));
    assert!(code.contains("missing_field(\"b\")"));
    assert!(code.contains("let a: [real_T; 3] = seq"));
    assert!(code.contains("invalid_length(1, &self)"));
    assert!(code.contains("const FIELDS: &'static [&'static str] = &[\"a\", \"b\"];"));
}

#[test]
fn member_arm_text() {
    let io = IO::new("real_T", "speed", None);
    assert_eq!(io.deserialize_impl(), "\"speed\" => Ok(Field::speed)");
    assert_eq!(foo().properties.deserialize_impl(), "\"a\" => Ok(Field::a),\n\"b\" => Ok(Field::b)");
    let one = List(vec![IO::new("real_T", "a", None)]);
    assert_eq!(one.deserialize_impl(), "\"a\" => Ok(Field::a)");
    assert_eq!(List(vec![]).deserialize_impl(), "");
}

#[test]
fn default_impl_text() {
    assert_eq!(
        foo().default_as_string(),
        "\nimpl Default for ExtU_Foo_T {\n    fn default() -> Self {\n        Self { \na: [Default::default(); 3],\nb: Default::default()\n }\n    }\n}\n"
    );
}

#[test]
fn default_impl_of_empty_struct() {
    let s = Simulink {
        name: String::from("Empty_T"),
        properties: List(vec![]),
    };
    assert_eq!(s.properties.to_string(), "\n\n");
    assert!(s.serialize_impl().contains("serialize_struct(serializer, \"Empty_T\", 0)"));
    assert!(s.deserialize_impl().contains("match value {\n_ => Err("));
}

#[test]
fn array_length_written_in_decimal() {
    let io = IO::new("int32_T", "buf", Some("1024"));
    assert_eq!(io.default_field(), "buf: [Default::default(); 1024]");
    let io = IO::new("int32_T", "z", Some("0"));
    assert_eq!(io.default_field(), "z: [Default::default(); 0]");
}
