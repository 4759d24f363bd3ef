//! The game font that the launcher registers.
use vstd::prelude::*;

verus! {

/// The folder that the font is looked for under.
#[derive(Clone, Copy, Debug, PartialEq, Eq, Structural)]
pub enum FontRoot {
    CurrentDir,
    /// The folder of the launcher's own program.
    ExeDir,
}

/// A place where the font may lie.
#[derive(Clone, Copy, Debug)]
pub struct FontCandidate {
    pub root: FontRoot,
    pub path: &'static str,
}

/// The font in the backend's folder.
pub const BACKEND_FONT: &'static str = "backend/Font/MS Gothic.ttf";

/// The font in a folder of its own.
pub const PLAIN_FONT: &'static str = "Font/MS Gothic.ttf";

/// The places under `root`, if that folder is known.
pub open spec fn candidates_under(root: FontRoot, known: bool) -> Seq<FontCandidate> {
    if known {
        seq![
            FontCandidate { root, path: BACKEND_FONT },
            FontCandidate { root, path: PLAIN_FONT },
        ]
    } else {
        seq![]
    }
}

/// The places where the font is looked for, in that order: the current folder comes first, and in
/// each the backend's folder does.
pub fn font_candidates(current_dir: bool, exe_dir: bool) -> (res: Vec<FontCandidate>)
    ensures
        res@ == candidates_under(FontRoot::CurrentDir, current_dir) + candidates_under(
            FontRoot::ExeDir,
            exe_dir,
        ),
{
    let mut res: Vec<FontCandidate> = Vec::new();
    if current_dir {
        res.push(FontCandidate { root: FontRoot::CurrentDir, path: BACKEND_FONT });
        res.push(FontCandidate { root: FontRoot::CurrentDir, path: PLAIN_FONT });
    }
    if exe_dir {
        res.push(FontCandidate { root: FontRoot::ExeDir, path: BACKEND_FONT });
        res.push(FontCandidate { root: FontRoot::ExeDir, path: PLAIN_FONT });
    }
    assert(res@ =~= candidates_under(FontRoot::CurrentDir, current_dir) + candidates_under(
        FontRoot::ExeDir,
        exe_dir,
    ));
    res
}

/// The first place that holds the font, given which of them do.
pub fn first_present(present: &[bool]) -> (res: Option<usize>)
    ensures
        match res {
            Some(i) => {
                &&& i < present@.len()
                &&& present@[i as int]
                &&& forall|j: int| 0 <= j < i ==> !present@[j]
            },
            None => forall|j: int| 0 <= j < present@.len() ==> !present@[j],
        },
        res is None <==> !present@.contains(true),
{
    let mut i: usize = 0;
    while i < present.len()
        invariant
            i <= present@.len(),
            forall|j: int| 0 <= j < i ==> !#[trigger] present@[j],
        decreases present@.len() - i,
    {
        if present[i] {
            assert(present@[i as int] == true);
            return Some(i);
        }
        i = i + 1;
    }
    None
}

/// A path in wide characters, with the NUL that ends it.
pub fn wide_string(units: Vec<u16>) -> (res: Vec<u16>)
    ensures
        res@ == units@.push(0),
{
    let mut res: Vec<u16> = units;
    res.push(0);
    res
}

/// The font is looked for in two places under each folder that is known: in the backend's folder
/// first, and then in a folder of its own.
pub proof fn law_font_places(root: FontRoot)
    ensures
        candidates_under(root, false).len() == 0,
        ({
            let places = candidates_under(root, true);
            &&& places.len() == 2
            &&& places[0].root == root
            &&& places[1].root == root
            &&& places[0].path@ == "backend/Font/MS Gothic.ttf"@
            &&& places[1].path@ == "Font/MS Gothic.ttf"@
        }),
{
}

/// The places under the current folder come before those under the launcher's own, and a folder that
/// is not known has none.
pub proof fn law_font_candidates(
    both: Vec<FontCandidate>,
    a: Vec<FontCandidate>,
    b: Vec<FontCandidate>,
    none: Vec<FontCandidate>,
)
    requires
        call_ensures(font_candidates, (true, true), both),
        call_ensures(font_candidates, (true, false), a),
        call_ensures(font_candidates, (false, true), b),
        call_ensures(font_candidates, (false, false), none),
    ensures
        both@ == a@ + b@,
        none@.len() == 0,
        a@.len() == 2,
        b@.len() == 2,
        a@[0].root == FontRoot::CurrentDir && a@[1].root == FontRoot::CurrentDir,
        b@[0].root == FontRoot::ExeDir && b@[1].root == FontRoot::ExeDir,
        a@[0].path@ == "backend/Font/MS Gothic.ttf"@ && a@[1].path@ == "Font/MS Gothic.ttf"@,
        b@[0].path@ == "backend/Font/MS Gothic.ttf"@ && b@[1].path@ == "Font/MS Gothic.ttf"@,
{
    law_font_places(FontRoot::CurrentDir);
    law_font_places(FontRoot::ExeDir);
    let unknown = candidates_under(FontRoot::ExeDir, false);
    assert(a@ =~= candidates_under(FontRoot::CurrentDir, true));
    assert(b@ =~= candidates_under(FontRoot::ExeDir, true));
}

/// A place is taken exactly where it holds the font and no place before it does.
pub proof fn law_first_present(present: &[bool], res: Option<usize>, i: int)
    requires
        call_ensures(first_present, (present,), res),
        0 <= i < present@.len(),
    ensures
        (res is Some && res.unwrap() == i) <==> present@[i] && forall|j: int|
            0 <= j < i ==> !present@[j],
        res is None ==> !present@[i],
        res matches Some(k) ==> k < present@.len(),
{
    match res {
        Some(k) => {
            assert(present@[k as int]);
            assert(forall|j: int| 0 <= j < k ==> !present@[j]);
        },
        None => {
            assert(!present@.contains(true));
        },
    }
}

/// A wide string has one unit more than the path, and that is a NUL.
pub proof fn law_wide_string(units: Vec<u16>, res: Vec<u16>)
    requires
        call_ensures(wide_string, (units,), res),
    ensures
        res@.len() == units@.len() + 1,
        res@[units@.len() as int] == 0,
        forall|i: int| 0 <= i < units@.len() ==> #[trigger] res@[i] == units@[i],
{
}

} // verus!
