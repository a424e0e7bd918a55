use vstd::prelude::*;
use crate::text::{
    find_char, tail_matches_ignoring_ascii_case, has_char, first_index_of,
    matches_ignoring_ascii_case, ascii_fold_eq,
};

verus! {

/// How a supported file is converted.
#[derive(Clone, Copy, Debug, PartialEq, Eq, Structural)]
pub enum Strategy {
    /// Decoded and re-encoded in process.
    NativeDecode,
    /// Handed to an external conversion program.
    ExternalTool,
}

/// What a directory entry is, judged by its name alone.
#[derive(Clone, Copy, Debug, PartialEq, Eq, Structural)]
pub enum Classification {
    /// The name holds no `.`, so it has no extension.
    Unclassifiable,
    /// A platform sidecar (the name holds a `:`): skipped silently.
    Ignored,
    /// The extension is not one that can be converted.
    Unsupported,
    /// The extension can be converted with the given strategy.
    Supported(Strategy),
}

/// The extension of a name: from its first `.` to its end.
pub open spec fn extension_of(name: Seq<char>) -> Seq<char> {
    name.subrange(first_index_of(name, '.'), name.len() as int)
}

/// The stem of a name: what stands before its first `.`.
pub open spec fn stem_of(name: Seq<char>) -> Seq<char> {
    name.subrange(0, first_index_of(name, '.'))
}

/// The table of supported extensions, matched with ASCII case ignored.
pub open spec fn strategy_for(ext: Seq<char>) -> Option<Strategy> {
    if matches_ignoring_ascii_case(ext, seq!['.', 'j', 'p', 'g'])
        || matches_ignoring_ascii_case(ext, seq!['.', 'j', 'p', 'e', 'g']) {
        Some(Strategy::NativeDecode)
    } else if matches_ignoring_ascii_case(ext, seq!['.', 'p', 'n', 'g'])
        || matches_ignoring_ascii_case(ext, seq!['.', 'h', 'e', 'i', 'c']) {
        Some(Strategy::ExternalTool)
    } else {
        None
    }
}

/// The classification of an entry named `name`.
pub open spec fn classification_of(name: Seq<char>) -> Classification {
    if !has_char(name, '.') {
        Classification::Unclassifiable
    } else if has_char(name, ':') {
        Classification::Ignored
    } else {
        match strategy_for(extension_of(name)) {
            Some(s) => Classification::Supported(s),
            None => Classification::Unsupported,
        }
    }
}

/// Classifies an entry by its name: no `.` makes it unclassifiable, a `:` makes it
/// an ignored sidecar, and otherwise its extension decides.
pub fn classify(name: &str) -> (r: Classification)
    ensures
        r == classification_of(name@),
{
    let dot = match find_char(name, '.') {
        None => return Classification::Unclassifiable,
        Some(d) => d,
    };
    if find_char(name, ':').is_some() {
        return Classification::Ignored;
    }
    proof {
        reveal_strlit(".jpg");
        reveal_strlit(".jpeg");
        reveal_strlit(".png");
        reveal_strlit(".heic");
        assert(".jpg"@ =~= seq!['.', 'j', 'p', 'g']);
        assert(".jpeg"@ =~= seq!['.', 'j', 'p', 'e', 'g']);
        assert(".png"@ =~= seq!['.', 'p', 'n', 'g']);
        assert(".heic"@ =~= seq!['.', 'h', 'e', 'i', 'c']);
    }
    if tail_matches_ignoring_ascii_case(name, dot, ".jpg")
        || tail_matches_ignoring_ascii_case(name, dot, ".jpeg") {
        Classification::Supported(Strategy::NativeDecode)
    } else if tail_matches_ignoring_ascii_case(name, dot, ".png")
        || tail_matches_ignoring_ascii_case(name, dot, ".heic") {
        Classification::Supported(Strategy::ExternalTool)
    } else {
        Classification::Unsupported
    }
}

/// An entry whose name holds no `.` is unclassifiable and is copied to the error
/// directory.
pub proof fn lemma_no_dot_is_unclassifiable(name: Seq<char>)
    requires
        !has_char(name, '.'),
    ensures
        classification_of(name) == Classification::Unclassifiable,
{
}

/// An entry whose name holds a `.` and a `:` is an ignored sidecar, whatever its
/// extension.
pub proof fn lemma_colon_is_ignored(name: Seq<char>)
    requires
        has_char(name, '.'),
        has_char(name, ':'),
    ensures
        classification_of(name) == Classification::Ignored,
{
}

/// An entry with a `.` and no `:` is classified by its extension alone, ASCII case
/// ignored: `.jpg` and `.jpeg` are decoded natively, `.png` and `.heic` go to the
/// external tool, and any other extension is unsupported.
pub proof fn lemma_extension_decides(name: Seq<char>)
    requires
        has_char(name, '.'),
        !has_char(name, ':'),
    ensures
        matches_ignoring_ascii_case(extension_of(name), seq!['.', 'j', 'p', 'g'])
            || matches_ignoring_ascii_case(extension_of(name), seq!['.', 'j', 'p', 'e', 'g'])
            ==> classification_of(name) == Classification::Supported(Strategy::NativeDecode),
        matches_ignoring_ascii_case(extension_of(name), seq!['.', 'p', 'n', 'g'])
            || matches_ignoring_ascii_case(extension_of(name), seq!['.', 'h', 'e', 'i', 'c'])
            ==> classification_of(name) == Classification::Supported(Strategy::ExternalTool),
        strategy_for(extension_of(name)) is None
            ==> classification_of(name) == Classification::Unsupported,
{
    let e = extension_of(name);
    if matches_ignoring_ascii_case(e, seq!['.', 'p', 'n', 'g'])
        || matches_ignoring_ascii_case(e, seq!['.', 'h', 'e', 'i', 'c']) {
        if matches_ignoring_ascii_case(e, seq!['.', 'j', 'p', 'g']) {
            assert(!ascii_fold_eq(e[1], 'j'));
        }
        if matches_ignoring_ascii_case(e, seq!['.', 'j', 'p', 'e', 'g']) {
            assert(!ascii_fold_eq(e[1], 'j'));
        }
    }
}

} // verus!
