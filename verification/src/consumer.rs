//! Shared pieces of the consumer (Swift) code generation: primitive type names, file headers,
//! imports and documentation comments.

use crate::parsing::{path_idents, path_segment_idents, Path};
use crate::text::{camel_case, indent, spaces, str_equal, to_camel_case, views};
use vstd::prelude::*;

verus! {

/// The Swift name of a Rust primitive type, or the name itself for any other type.
pub open spec fn consumer_primitive_name(native: Seq<char>) -> Seq<char> {
    if native == "u8"@ {
        "UInt8"@
    } else if native == "u16"@ {
        "UInt16"@
    } else if native == "u32"@ {
        "UInt32"@
    } else if native == "u64"@ {
        "UInt64"@
    } else if native == "i8"@ {
        "Int8"@
    } else if native == "i16"@ {
        "Int16"@
    } else if native == "i32"@ {
        "Int32"@
    } else if native == "i64"@ {
        "Int64"@
    } else if native == "f32"@ {
        "Float32"@
    } else if native == "f64"@ {
        "Double"@
    } else if native == "bool"@ {
        "Bool"@
    } else {
        native
    }
}

/// The consumer type for `native`, followed by `?` when it is optional.
pub open spec fn consumer_type_spec(native: Seq<char>, option: bool) -> Seq<char> {
    if option {
        consumer_primitive_name(native) + "?"@
    } else {
        consumer_primitive_name(native)
    }
}

/// Given a native type, this returns the type the consumer will use. A primitive is matched with
/// the corresponding Swift primitive; any other type keeps its name. When `option` is true the
/// result is made optional with a trailing `?`.
pub fn consumer_type_for(native_type: &str, option: bool) -> (r: String)
    ensures
        r@ == consumer_type_spec(native_type@, option),
{
    let mut converted = if str_equal(native_type, "u8") {
        String::from_str("UInt8")
    } else if str_equal(native_type, "u16") {
        String::from_str("UInt16")
    } else if str_equal(native_type, "u32") {
        String::from_str("UInt32")
    } else if str_equal(native_type, "u64") {
        String::from_str("UInt64")
    } else if str_equal(native_type, "i8") {
        String::from_str("Int8")
    } else if str_equal(native_type, "i16") {
        String::from_str("Int16")
    } else if str_equal(native_type, "i32") {
        String::from_str("Int32")
    } else if str_equal(native_type, "i64") {
        String::from_str("Int64")
    } else if str_equal(native_type, "f32") {
        String::from_str("Float32")
    } else if str_equal(native_type, "f64") {
        String::from_str("Double")
    } else if str_equal(native_type, "bool") {
        String::from_str("Bool")
    } else {
        String::from_str(native_type)
    };
    if option {
        converted.append("?");
    }
    converted
}

/// The Rust primitives for which a conformance file is written, in the order they are written.
pub open spec fn primitive_types() -> Seq<Seq<char>> {
    seq!["bool"@, "u8"@, "u16"@, "u32"@, "u64"@, "i8"@, "i16"@, "i32"@, "i64"@, "f32"@, "f64"@]
}

/// The Rust primitives that get a consumer conformance file.
pub fn primitive_class_names() -> (r: Vec<String>)
    ensures
        views(r@) == primitive_types(),
{
    let r = vec![
        String::from_str("bool"),
        String::from_str("u8"),
        String::from_str("u16"),
        String::from_str("u32"),
        String::from_str("u64"),
        String::from_str("i8"),
        String::from_str("i16"),
        String::from_str("i32"),
        String::from_str("i64"),
        String::from_str("f32"),
        String::from_str("f64"),
    ];
    assert(views(r@) =~= primitive_types());
    r
}

/// The directory below `consumer_dir` that holds the files shared by all generated types.
pub open spec fn foundation_dir_spec(consumer_dir: Seq<char>) -> Seq<char> {
    consumer_dir + "/common"@
}

/// The directory below `consumer_dir` that holds the files shared by all generated types.
pub fn consumer_foundation_dir(consumer_dir: &str) -> (r: String)
    ensures
        r@ == foundation_dir_spec(consumer_dir@),
{
    let mut r = String::from_str(consumer_dir);
    r.append("/common");
    r
}

/// The name of the conformance file for a primitive: its consumer type with a `.swift` extension.
pub open spec fn primitive_conformance_file_spec(native: Seq<char>) -> Seq<char> {
    consumer_type_spec(native, false) + ".swift"@
}

/// The name of the conformance file written for the primitive `native_type`.
pub fn primitive_conformance_file_name(native_type: &str) -> (r: String)
    ensures
        r@ == primitive_conformance_file_spec(native_type@),
{
    let mut r = consumer_type_for(native_type, false);
    r.append(".swift");
    r
}

/// A consumer import statement for the path with segments `segments`: the camel-cased first
/// segment is the module and the camel-cased last segment the class.
pub open spec fn import_spec(segments: Seq<Seq<char>>) -> Seq<char>
    recommends
        segments.len() > 0,
{
    "import class "@ + camel_case(segments[0]) + "."@ + camel_case(segments.last())
}

/// Turns a path, given by its segments, into a consumer import statement. A path with no
/// segment has nothing to import and gives `None`.
pub fn build_import(segments: &Vec<String>) -> (r: Option<String>)
    ensures
        r is None <==> segments.len() == 0,
        r matches Some(s) ==> s@ == import_spec(views(segments@)),
{
    if segments.len() == 0 {
        return None;
    }
    let crate_name = to_camel_case(segments[0].as_str());
    let class_name = to_camel_case(segments[segments.len() - 1].as_str());
    let mut r = String::from_str("import class ");
    r.append(crate_name.as_str());
    r.append(".");
    r.append(class_name.as_str());
    proof {
        assert(views(segments@)[0] == segments@[0]@);
        assert(views(segments@).last() == segments@[segments.len() - 1]@);
    }
    Some(r)
}

/// Documentation comment lines for the consumer: each documentation string of the Rust item,
/// indented to `level` and introduced by `///`, on a line of its own.
pub open spec fn docs_spec(docs: Seq<Seq<char>>, level: nat) -> Seq<char>
    decreases docs.len(),
{
    if docs.len() == 0 {
        Seq::empty()
    } else {
        docs_spec(docs.drop_last(), level) + spaces(level * 4) + "///"@ + docs.last() + "\n"@
    }
}

/// Turns the documentation strings of a Rust item into consumer documentation comments indented
/// to `level`.
pub fn consumer_docs_from(docs: &Vec<String>, level: usize) -> (r: String)
    requires
        level * 4 <= usize::MAX,
    ensures
        r@ == docs_spec(views(docs@), level as nat),
{
    let mut r = String::new();
    let pad = indent(level * 4);
    let ghost vs = views(docs@);
    let mut i: usize = 0;
    while i < docs.len()
        invariant
            vs == views(docs@),
            i <= docs.len(),
            pad@ == spaces((level * 4) as nat),
            r@ == docs_spec(vs.take(i as int), level as nat),
        decreases docs.len() - i,
    {
        r.append(pad.as_str());
        r.append("///");
        r.append(docs[i].as_str());
        r.append("\n");
        proof {
            assert(vs.take(i + 1).drop_last() =~= vs.take(i as int));
        }
        i = i + 1;
    }
    assert(vs.take(docs.len() as int) =~= vs);
    r
}

/// The comment at the top of each consumer file.
pub const HEADER: &'static str = "/* This was generated by the Rust `ffi_consumer` crate. Don't modify this manually. */";

/// True when every path of `paths` has a segment, so that it can be imported.
pub open spec fn importable(paths: Seq<Path>) -> bool {
    forall|i: int| 0 <= i < paths.len() ==> path_idents(#[trigger] paths[i]).len() > 0
}

/// The import lines for the paths `paths`, each on a line of its own.
pub open spec fn import_lines_spec(paths: Seq<Path>) -> Seq<char>
    decreases paths.len(),
{
    if paths.len() == 0 {
        Seq::empty()
    } else {
        import_lines_spec(paths.drop_last()) + "\n"@ + import_spec(path_idents(paths.last()))
    }
}

/// The start of a consumer file: the header comment, then an import for each of `paths`.
pub open spec fn header_and_imports_spec(paths: Seq<Path>) -> Seq<char> {
    HEADER@ + import_lines_spec(paths) + "\n"@
}

/// The start of a consumer file: the header comment, then an import for each of `paths`. A path
/// with no segment cannot be imported and gives `None`.
pub fn header_and_imports(paths: &Vec<Path>) -> (r: Option<String>)
    ensures
        r is Some <==> importable(paths@),
        r matches Some(s) ==> s@ == header_and_imports_spec(paths@),
{
    let mut r = String::from_str(HEADER);
    let mut i: usize = 0;
    while i < paths.len()
        invariant
            i <= paths.len(),
            r@ == HEADER@ + import_lines_spec(paths@.take(i as int)),
            forall|j: int| 0 <= j < i ==> path_idents(#[trigger] paths@[j]).len() > 0,
        decreases paths.len() - i,
    {
        proof {
            assert(paths@.take(i + 1).drop_last() =~= paths@.take(i as int));
        }
        let segments = path_segment_idents(&paths[i]);
        match build_import(&segments) {
            Some(line) => {
                r.append("\n");
                r.append(line.as_str());
            },
            None => {
                return None;
            },
        }
        i = i + 1;
    }
    assert(paths@.take(paths.len() as int) =~= paths@);
    r.append("\n");
    Some(r)
}

/// A consumer file's contents: the header comment, a blank line, then `contents`.
pub open spec fn with_header_spec(contents: Seq<char>) -> Seq<char> {
    HEADER@ + "\n\n"@ + contents
}

/// A consumer file's contents: the header comment, a blank line, then `contents`.
pub fn with_header(contents: &str) -> (r: String)
    ensures
        r@ == with_header_spec(contents@),
{
    let mut r = String::from_str(HEADER);
    r.append("\n\n");
    r.append(contents);
    r
}

/// Each Rust primitive keeps its width and signedness in the consumer: `u8`, `u16`, `u32` and
/// `u64` are `UInt8`, `UInt16`, `UInt32` and `UInt64`; `i8`, `i16`, `i32` and `i64` are `Int8`,
/// `Int16`, `Int32` and `Int64`; `f32` is `Float32`, `f64` is `Double` and `bool` is `Bool`.
pub proof fn lemma_primitive_consumer_types()
    ensures
        consumer_type_spec("u8"@, false) == "UInt8"@,
        consumer_type_spec("u16"@, false) == "UInt16"@,
        consumer_type_spec("u32"@, false) == "UInt32"@,
        consumer_type_spec("u64"@, false) == "UInt64"@,
        consumer_type_spec("i8"@, false) == "Int8"@,
        consumer_type_spec("i16"@, false) == "Int16"@,
        consumer_type_spec("i32"@, false) == "Int32"@,
        consumer_type_spec("i64"@, false) == "Int64"@,
        consumer_type_spec("f32"@, false) == "Float32"@,
        consumer_type_spec("f64"@, false) == "Double"@,
        consumer_type_spec("bool"@, false) == "Bool"@,
{
    reveal_strlit("u8");
    reveal_strlit("u16");
    reveal_strlit("u32");
    reveal_strlit("u64");
    reveal_strlit("i8");
    reveal_strlit("i16");
    reveal_strlit("i32");
    reveal_strlit("i64");
    reveal_strlit("f32");
    reveal_strlit("f64");
    reveal_strlit("bool");
    assert("u16"@.len() != "u8"@.len());
    assert("u32"@.len() != "u8"@.len());
    assert("u32"@[1] != "u16"@[1]);
    assert("u64"@.len() != "u8"@.len());
    assert("u64"@[1] != "u16"@[1]);
    assert("u64"@[1] != "u32"@[1]);
    assert("i8"@[0] != "u8"@[0]);
    assert("i8"@.len() != "u16"@.len());
    assert("i8"@.len() != "u32"@.len());
    assert("i8"@.len() != "u64"@.len());
    assert("i16"@.len() != "u8"@.len());
    assert("i16"@[0] != "u16"@[0]);
    assert("i16"@[0] != "u32"@[0]);
    assert("i16"@[0] != "u64"@[0]);
    assert("i16"@.len() != "i8"@.len());
    assert("i32"@.len() != "u8"@.len());
    assert("i32"@[0] != "u16"@[0]);
    assert("i32"@[0] != "u32"@[0]);
    assert("i32"@[0] != "u64"@[0]);
    assert("i32"@.len() != "i8"@.len());
    assert("i32"@[1] != "i16"@[1]);
    assert("i64"@.len() != "u8"@.len());
    assert("i64"@[0] != "u16"@[0]);
    assert("i64"@[0] != "u32"@[0]);
    assert("i64"@[0] != "u64"@[0]);
    assert("i64"@.len() != "i8"@.len());
    assert("i64"@[1] != "i16"@[1]);
    assert("i64"@[1] != "i32"@[1]);
    assert("f32"@.len() != "u8"@.len());
    assert("f32"@[0] != "u16"@[0]);
    assert("f32"@[0] != "u32"@[0]);
    assert("f32"@[0] != "u64"@[0]);
    assert("f32"@.len() != "i8"@.len());
    assert("f32"@[0] != "i16"@[0]);
    assert("f32"@[0] != "i32"@[0]);
    assert("f32"@[0] != "i64"@[0]);
    assert("f64"@.len() != "u8"@.len());
    assert("f64"@[0] != "u16"@[0]);
    assert("f64"@[0] != "u32"@[0]);
    assert("f64"@[0] != "u64"@[0]);
    assert("f64"@.len() != "i8"@.len());
    assert("f64"@[0] != "i16"@[0]);
    assert("f64"@[0] != "i32"@[0]);
    assert("f64"@[0] != "i64"@[0]);
    assert("f64"@[1] != "f32"@[1]);
    assert("bool"@.len() != "u8"@.len());
    assert("bool"@.len() != "u16"@.len());
    assert("bool"@.len() != "u32"@.len());
    assert("bool"@.len() != "u64"@.len());
    assert("bool"@.len() != "i8"@.len());
    assert("bool"@.len() != "i16"@.len());
    assert("bool"@.len() != "i32"@.len());
    assert("bool"@.len() != "i64"@.len());
    assert("bool"@.len() != "f32"@.len());
    assert("bool"@.len() != "f64"@.len());
}

/// The consumer type of an optional value is that of the value followed by `?`.
pub proof fn lemma_optional_consumer_type(native: Seq<char>)
    ensures
        consumer_type_spec(native, true) == consumer_type_spec(native, false) + "?"@,
{
}

} // verus!
