use simulink_rs::{HeaderError, Model, Simulink, Sys, IO};

fn lines(text: &str) -> Vec<String> {
    text.lines().map(String::from).collect()
}

fn members(s: &Simulink) -> Vec<(String, String, Option<usize>)> {
    s.properties
        .0
        .iter()
        .map(|f| (f.dtype.clone(), f.name.clone(), f.size))
        .collect()
}

const HEADER: &str = "/*
 * File: FooBar.h
 */
typedef struct {
  real_T a[3];                         /* '<Root>/a' */
  real_T b;                            /* '<Root>/b' */
} ExtU_Foo_T;

typedef struct {
  real_T table[4];
} ConstP_Foo_T;

typedef struct {
  real_T y;
} ExtY_Foo_T;
";

#[test]
fn struct_with_array_and_scalar() {
    let ls = lines("typedef struct {\n real_T a[3];\n real_T b;\n} ExtU_Foo_T;");
    let mut cursor = 0;
    let s = Simulink::parse_io(&ls, &mut cursor).unwrap();
    assert_eq!(s.name, "ExtU_Foo_T");
    assert_eq!(
        members(&s),
        vec![
            ("real_T".to_string(), "a".to_string(), Some(3)),
            ("real_T".to_string(), "b".to_string(), None)
        ]
    );
    assert_eq!(cursor, 4);
    assert!(Simulink::parse_io(&ls, &mut cursor).is_none());
}

#[test]
fn model_name_from_file_comment() {
    let model = Model::parse_header(&lines(HEADER)).unwrap();
    assert_eq!(model.name, "FooBar");
}

#[test]
fn model_name_is_first_file_line() {
    let ls = lines("// other\n// File: FooBar.h\n// File: Second.h");
    assert_eq!(Model::parse_header(&ls).unwrap().name, "FooBar");
}

#[test]
fn missing_name_is_an_error() {
    let ls = lines("typedef struct {\n real_T a;\n} ExtU_Foo_T;");
    assert_eq!(Model::parse_header(&ls).unwrap_err(), HeaderError::MissingName);
    assert_eq!(Model::parse_header(&Vec::new()).unwrap_err(), HeaderError::MissingName);
}

#[test]
fn const_parameters_are_discarded_and_scan_resumes() {
    let model = Model::parse_header(&lines(HEADER)).unwrap();
    let names: Vec<&str> = model.simulink.iter().map(|s| s.name.as_str()).collect();
    assert_eq!(names, vec!["ExtU_Foo_T", "ExtY_Foo_T"]);
    assert_eq!(members(&model.simulink[1]), vec![("real_T".to_string(), "y".to_string(), None)]);
}

#[test]
fn only_const_parameters_gives_no_struct() {
    let ls = lines("typedef struct {\n real_T k[2];\n} ConstP_T;\ntypedef struct {\n real_T j;\n} ConstParam_T;");
    let mut cursor = 0;
    assert!(Simulink::parse_io(&ls, &mut cursor).is_none());
    assert_eq!(cursor, ls.len());
}

#[test]
fn unclosed_block_is_dropped() {
    let ls = lines("// File: M.h\ntypedef struct {\n real_T a;\n real_T b;");
    let model = Model::parse_header(&ls).unwrap();
    assert!(model.simulink.is_empty());
    let mut cursor = 1;
    assert!(Simulink::parse_io(&ls, &mut cursor).is_none());
    assert_eq!(cursor, ls.len());
}

#[test]
fn struct_before_name_is_not_read() {
    let ls = lines("typedef struct {\n real_T a;\n} Early_T;\n// File: M.h\ntypedef struct {\n real_T b;\n} Late_T;");
    let model = Model::parse_header(&ls).unwrap();
    assert_eq!(model.simulink.len(), 1);
    assert_eq!(model.simulink[0].name, "Late_T");
}

#[test]
fn closing_line_is_not_a_member() {
    let ls = lines("typedef struct {\n  real_T x;\n} DW_Foo_T;               /* block states */");
    let mut cursor = 0;
    let s = Simulink::parse_io(&ls, &mut cursor).unwrap();
    assert_eq!(s.name, "DW_Foo_T");
    assert_eq!(members(&s), vec![("real_T".to_string(), "x".to_string(), None)]);
}

#[test]
fn comment_lines_in_block_are_not_members() {
    let ls = lines("typedef struct {\n  /* Block signals */\n\n  real_T b;\n} ExtY_Foo_T;");
    let mut cursor = 0;
    let s = Simulink::parse_io(&ls, &mut cursor).unwrap();
    assert_eq!(s.name, "ExtY_Foo_T");
    assert_eq!(members(&s), vec![("real_T".to_string(), "b".to_string(), None)]);
}

#[test]
fn trailing_comment_does_not_close_block() {
    let ls = lines("typedef struct {\n  real_T a[2];  /* see } Other_T; */\n  int32_T n;  // count of items\n} DW_Foo_T;");
    let mut cursor = 0;
    let s = Simulink::parse_io(&ls, &mut cursor).unwrap();
    assert_eq!(s.name, "DW_Foo_T");
    assert_eq!(
        members(&s),
        vec![
            ("real_T".to_string(), "a".to_string(), Some(2)),
            ("int32_T".to_string(), "n".to_string(), None)
        ]
    );
    assert_eq!(cursor, 4);
}

#[test]
fn lines_outside_blocks_are_ignored() {
    let ls = lines("#include \"rtwtypes.h\"\nreal_T stray;\ntypedef struct {\n\n  /* comment */\n  uint8_T flag;\n} Flags_T;");
    let mut cursor = 0;
    let s = Simulink::parse_io(&ls, &mut cursor).unwrap();
    assert_eq!(s.name, "Flags_T");
    assert_eq!(members(&s), vec![("uint8_T".to_string(), "flag".to_string(), None)]);
}

#[test]
fn empty_struct_is_kept() {
    let ls = lines("typedef struct {\n} Empty_T;");
    let mut cursor = 0;
    let s = Simulink::parse_io(&ls, &mut cursor).unwrap();
    assert_eq!(s.name, "Empty_T");
    assert!(s.properties.0.is_empty());
}

#[test]
fn member_length_is_read_as_number() {
    let io = IO::new("real_T", "a", Some("306"));
    assert_eq!((io.dtype.as_str(), io.name.as_str(), io.size), ("real_T", "a", Some(306)));
    assert_eq!(IO::new("real_T", "a", None).size, None);
    assert_eq!(IO::new("real_T", "a", Some("+7")).size, Some(7));
    assert_eq!(IO::new("real_T", "a", Some("x1")).size, None);
    assert_eq!(IO::new("real_T", "a", Some("")).size, None);
    assert_eq!(IO::new("real_T", "a", Some("99999999999999999999999")).size, None);
}

#[test]
fn main_header_skips_support_headers() {
    let files = vec![
        ("sys/rtwtypes.h".to_string(), "h".to_string()),
        ("sys/Foo_private.h".to_string(), "h".to_string()),
        ("sys/Foo.c".to_string(), "c".to_string()),
        ("sys/Foo_types.h".to_string(), "h".to_string()),
        ("sys/Foo.h".to_string(), "h".to_string()),
        ("sys/rt_defines.h".to_string(), "h".to_string()),
        ("sys/notes.txt".to_string(), "txt".to_string()),
    ];
    let sys = Sys::builder().name("Controller").build(files);
    assert_eq!(sys.header(), Some("sys/Foo.h"));
    assert_eq!(sys.sources(), &vec!["sys/Foo.c".to_string()]);
    assert_eq!(sys.headers().len(), 5);
}

#[test]
fn no_main_header() {
    let sys = Sys::new(None, vec![("sys/rtwtypes.h".to_string(), "h".to_string())]);
    assert_eq!(sys.header(), None);
    assert!(sys.sources().is_empty());
}

#[test]
fn builder_defaults_and_setters() {
    let b = Sys::builder();
    assert_eq!(b.sys_folder(), "sys");
    let b = b.folder("c_code").name("Ctrl");
    assert_eq!(b.sys_folder(), "c_code");
}

#[test]
fn module_text_with_alias() {
    let model = Model::parse_header(&lines(HEADER)).unwrap();
    let sys = Sys::new(Some("Controller"), vec![]);
    let text = sys.module_text(&model);
    assert!(text.starts_with(
        "/// Rust binder to Simulink C controller wrapper\n#[allow(dead_code)]\npub type Controller = FooBar;\n"
    ));
    assert!(text.ends_with(&model.to_string()));
    let plain = Sys::new(None, vec![]).module_text(&model);
    assert_eq!(plain, model.to_string());
}

#[test]
fn model_code_holds_wrapper_and_impls() {
    let model = Model::parse_header(&lines(HEADER)).unwrap();
    let code = model.to_string();
    assert!(code.contains("pub struct FooBar {\n"));
    assert!(code.contains("    pub inputs: ExtU_FooBar_T,\n"));
    assert!(code.contains("    pub outputs: ExtY_FooBar_T,\n"));
    assert!(code.contains("    states: DW_FooBar_T,\n"));
    assert!(code.contains("FooBar_initialize(&mut data as *mut _)"));
    assert!(code.contains("FooBar_step(\n"));
    assert!(code.contains(&model.simulink[0].default_as_string()));
    assert!(code.contains(&model.simulink[1].to_string()));
    assert_eq!(code.matches("impl Default for").count(), 2);
    assert!(!code.contains("ConstP"));
}
