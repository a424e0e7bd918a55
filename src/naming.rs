use vstd::prelude::*;
use crate::text::{find_char, same_chars, has_char};
use crate::classify::stem_of;

verus! {

/// The format every converted file is written in; fixed for a whole run.
#[derive(Clone, Copy, Debug, PartialEq, Eq, Structural)]
pub enum TargetFormat {
    Png,
    Jpeg,
}

/// The extension a file of the given format is written with.
pub open spec fn target_extension(f: TargetFormat) -> Seq<char> {
    match f {
        TargetFormat::Png => seq!['.', 'p', 'n', 'g'],
        TargetFormat::Jpeg => seq!['.', 'j', 'p', 'e', 'g'],
    }
}

/// The name of the converted file for an entry named `name`.
pub open spec fn output_name_of(name: Seq<char>, f: TargetFormat) -> Seq<char> {
    stem_of(name) + target_extension(f)
}

/// The path of `file` inside the directory `dir`: a `/` is put between the two
/// unless `dir` is empty or already ends with one.
pub open spec fn joined(dir: Seq<char>, file: Seq<char>) -> Seq<char> {
    if dir.len() == 0 || dir.last() == '/' {
        dir + file
    } else {
        dir + seq!['/'] + file
    }
}

impl TargetFormat {
    /// The extension files of this format are written with.
    pub fn extension(&self) -> (r: &'static str)
        ensures
            r@ == target_extension(*self),
    {
        proof {
            reveal_strlit(".png");
            reveal_strlit(".jpeg");
        }
        match self {
            TargetFormat::Png => ".png",
            TargetFormat::Jpeg => ".jpeg",
        }
    }

    /// Reads a target format token: exactly `.png` or `.jpeg`.
    pub fn from_token(token: &str) -> (r: Option<TargetFormat>)
        ensures
            r == (if token@ == target_extension(TargetFormat::Png) {
                Some(TargetFormat::Png)
            } else if token@ == target_extension(TargetFormat::Jpeg) {
                Some(TargetFormat::Jpeg)
            } else {
                None
            }),
    {
        proof {
            reveal_strlit(".png");
            reveal_strlit(".jpeg");
            assert(".png"@ =~= target_extension(TargetFormat::Png));
            assert(".jpeg"@ =~= target_extension(TargetFormat::Jpeg));
        }
        if same_chars(token, ".png") {
            Some(TargetFormat::Png)
        } else if same_chars(token, ".jpeg") {
            Some(TargetFormat::Jpeg)
        } else {
            None
        }
    }
}

/// The name of the converted file for an entry named `name`: the name's stem
/// (what precedes its first `.`) followed by the target's extension. `None` when
/// the name has no `.`.
pub fn output_name(name: &str, target: TargetFormat) -> (r: Option<String>)
    ensures
        r is None <==> !has_char(name@, '.'),
        r matches Some(s) ==> s@ == output_name_of(name@, target),
{
    match find_char(name, '.') {
        None => None,
        Some(dot) => {
            let mut s = String::from_str(name.substring_char(0, dot));
            s.append(target.extension());
            Some(s)
        },
    }
}

/// The path of `file` inside the directory `dir`.
pub fn join_path(dir: &str, file: &str) -> (r: String)
    ensures
        r@ == joined(dir@, file@),
{
    let n = dir.unicode_len();
    let mut s = String::from_str(dir);
    if n > 0 && dir.get_char(n - 1) != '/' {
        proof {
            reveal_strlit("/");
        }
        s.append("/");
    }
    s.append(file);
    proof {
        if n > 0 && dir@.last() != '/' {
            assert(s@ =~= dir@ + seq!['/'] + file@);
        }
    }
    s
}

/// Converting only ever keeps the stem of a name: two names with the same stem
/// give the same output name, whatever their extensions and the case they are
/// written in, and that name ends in the target's own lower-case extension.
pub proof fn lemma_output_name_depends_on_stem(a: Seq<char>, b: Seq<char>, target: TargetFormat)
    requires
        has_char(a, '.'),
        has_char(b, '.'),
        stem_of(a) == stem_of(b),
    ensures
        output_name_of(a, target) == output_name_of(b, target),
        output_name_of(a, target) == stem_of(a) + target_extension(target),
{
}

} // verus!
