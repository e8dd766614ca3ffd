use vstd::prelude::*;

verus! {

/// What `sqlformat::format` makes of a query with the options this library uses.
pub uninterp spec fn sql_formatted(query: Seq<char>) -> Seq<char>;

/// The extension of a path, as `std::path::Path::extension` reads it.
pub uninterp spec fn extension_of(path: Seq<char>) -> Option<Seq<char>>;

/// The parent of a path, as `std::path::Path::parent` reads it.
pub uninterp spec fn parent_of(path: Seq<char>) -> Option<Seq<char>>;

/// Relies on `sqlformat::format` with four-space indentation, keyword case left as
/// written and two line breaks after each statement, so that one blank line
/// separates statements: the result depends on the query text alone.
#[verifier::external_body]
pub(crate) fn format_query(query: &String) -> (r: String)
    ensures
        r@ == sql_formatted(query@),
{
    let options = sqlformat::FormatOptions {
        indent: sqlformat::Indent::Spaces(4),
        uppercase: None,
        lines_between_queries: 2,
        ignore_case_convert: None,
    };
    sqlformat::format(query, &sqlformat::QueryParams::None, &options)
}

/// Relies on `std::path::Path::extension`: the part of the file name after its
/// last dot, if there is one; the result depends on the path text alone.
#[verifier::external_body]
pub(crate) fn path_extension(path: &String) -> (r: Option<String>)
    ensures
        match r {
            Some(e) => extension_of(path@) == Some(e@),
            None => extension_of(path@) is None,
        },
{
    std::path::Path::new(path).extension().map(|e| e.to_string_lossy().into_owned())
}

/// Relies on `std::path::Path::parent`: the path without its last component, or
/// nothing at a root; the result depends on the path text alone.
#[verifier::external_body]
pub(crate) fn path_parent(path: &String) -> (r: Option<String>)
    ensures
        match r {
            Some(p) => parent_of(path@) == Some(p@),
            None => parent_of(path@) is None,
        },
{
    std::path::Path::new(path).parent().map(|p| p.to_string_lossy().into_owned())
}

/// The extension that marks a file as SQL.
pub open spec fn sql_extension() -> Seq<char> {
    seq!['s', 'q', 'l']
}

/// Whether the path names an SQL file: its extension is exactly `sql`.
pub open spec fn is_sql_path(path: Seq<char>) -> bool {
    extension_of(path) == Some(sql_extension())
}

/// Whether `path` has the extension `sql`.
pub fn is_sql_file(path: &String) -> (r: bool)
    ensures
        r == is_sql_path(path@),
{
    match path_extension(path) {
        Some(e) => {
            let expected = String::from_str("sql");
            proof {
                reveal_strlit("sql");
                assert(expected@ =~= sql_extension());
            }
            e == expected
        },
        None => false,
    }
}

} // verus!
