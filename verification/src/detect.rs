//! Finding a helper for the user repository among the programs on the
//! search path.

use crate::commands::DetectedAurHelper;
use crate::config::AurHelperMode;
use vstd::prelude::*;

verus! {

/// What a look at one path found: whether a regular file is there, and the
/// permission bits of what is there, if they could be read.
#[derive(Clone, Copy, Debug, PartialEq, Eq, Structural)]
pub struct FileProbe {
    pub is_file: bool,
    pub mode: Option<u32>,
}

/// Whether what was found is a program: a regular file that its owner, its
/// group or anyone else may execute.
pub open spec fn executable(probe: FileProbe) -> bool {
    probe.is_file && probe.mode is Some && probe.mode->0 & 0o111 != 0
}

/// Whether what was found is a program.
pub fn is_executable_file(probe: &FileProbe) -> (b: bool)
    ensures
        b == executable(*probe),
{
    if !probe.is_file {
        return false;
    }
    match probe.mode {
        Some(mode) => mode & 0o111 != 0,
        None => false,
    }
}

/// Whether a program was found in any directory of the search path, where
/// `probes` holds what was found in each.
pub open spec fn present(probes: Seq<FileProbe>) -> bool {
    exists|i: int| 0 <= i < probes.len() && executable(#[trigger] probes[i])
}

/// Whether a program was found in any directory of the search path, where
/// `probes` holds, for each directory in turn, what was found under the
/// program's name.
pub fn has_binary(probes: &Vec<FileProbe>) -> (found: bool)
    ensures
        found == present(probes@),
{
    let mut i: usize = 0;
    while i < probes.len()
        invariant
            i <= probes.len(),
            forall|j: int| 0 <= j < i ==> !executable(#[trigger] probes@[j]),
        decreases probes.len() - i,
    {
        if is_executable_file(&probes[i]) {
            return true;
        }
        i += 1;
    }
    false
}

/// Whether a program was found does not depend on the order of the
/// directories of the search path.
pub proof fn lemma_presence_ignores_order(a: Seq<FileProbe>, b: Seq<FileProbe>)
    requires
        a.to_multiset() == b.to_multiset(),
    ensures
        present(a) == present(b),
{
    a.to_multiset_ensures();
    b.to_multiset_ensures();
    if present(a) {
        let i = choose|i: int| 0 <= i < a.len() && executable(#[trigger] a[i]);
        assert(a.contains(a[i]));
        assert(a.to_multiset().count(a[i]) > 0);
        assert(b.to_multiset().count(a[i]) > 0);
        assert(b.contains(a[i]));
        let j = choose|j: int| 0 <= j < b.len() && b[j] == a[i];
        assert(executable(b[j]));
    }
    if present(b) {
        let i = choose|i: int| 0 <= i < b.len() && executable(#[trigger] b[i]);
        assert(b.contains(b[i]));
        assert(b.to_multiset().count(b[i]) > 0);
        assert(a.to_multiset().count(b[i]) > 0);
        assert(a.contains(b[i]));
        let j = choose|j: int| 0 <= j < a.len() && a[j] == b[i];
        assert(executable(a[j]));
    }
}

/// The helper to use, where `paru` and `yay` say whether each was found.
/// A mode that names a helper gives that helper where it was found. `Auto`
/// gives paru where it was found, else yay where that was found.
pub open spec fn chosen(mode: AurHelperMode, paru: bool, yay: bool) -> Option<DetectedAurHelper> {
    match mode {
        AurHelperMode::Off => None,
        AurHelperMode::Paru => if paru {
            Some(DetectedAurHelper::Paru)
        } else {
            None
        },
        AurHelperMode::Yay => if yay {
            Some(DetectedAurHelper::Yay)
        } else {
            None
        },
        AurHelperMode::Auto => if paru {
            Some(DetectedAurHelper::Paru)
        } else if yay {
            Some(DetectedAurHelper::Yay)
        } else {
            None
        },
    }
}

/// With `Auto`, paru is the helper wherever both helpers are on the search
/// path, in whichever of its directories, and in whatever order the
/// directories are searched.
pub proof fn lemma_auto_prefers_paru(
    paru: Seq<FileProbe>,
    yay: Seq<FileProbe>,
    paru_reordered: Seq<FileProbe>,
    yay_reordered: Seq<FileProbe>,
)
    requires
        present(paru),
        present(yay),
        paru_reordered.to_multiset() == paru.to_multiset(),
        yay_reordered.to_multiset() == yay.to_multiset(),
    ensures
        chosen(AurHelperMode::Auto, present(paru), present(yay)) == Some(DetectedAurHelper::Paru),
        chosen(AurHelperMode::Auto, present(paru_reordered), present(yay_reordered)) == Some(
            DetectedAurHelper::Paru,
        ),
{
    lemma_presence_ignores_order(paru, paru_reordered);
    lemma_presence_ignores_order(yay, yay_reordered);
}

/// A mode that names one helper gives none while that helper is not on the
/// search path, and that helper once it is, whatever else is there.
pub proof fn lemma_named_helper(paru: Seq<FileProbe>, yay: Seq<FileProbe>)
    ensures
        chosen(AurHelperMode::Yay, present(paru), present(yay)) == if present(yay) {
            Some(DetectedAurHelper::Yay)
        } else {
            None
        },
        chosen(AurHelperMode::Paru, present(paru), present(yay)) == if present(paru) {
            Some(DetectedAurHelper::Paru)
        } else {
            None
        },
{
}

/// Picks the helper by what was found on the search path: `paru` and `yay`
/// hold, for each directory in turn, what was found under that name.
pub fn detect_aur_helper_with_path(
    mode: AurHelperMode,
    paru: &Vec<FileProbe>,
    yay: &Vec<FileProbe>,
) -> (helper: Option<DetectedAurHelper>)
    ensures
        helper == chosen(mode, present(paru@), present(yay@)),
{
    match mode {
        AurHelperMode::Off => None,
        AurHelperMode::Paru => if has_binary(paru) {
            Some(DetectedAurHelper::Paru)
        } else {
            None
        },
        AurHelperMode::Yay => if has_binary(yay) {
            Some(DetectedAurHelper::Yay)
        } else {
            None
        },
        AurHelperMode::Auto => {
            if has_binary(paru) {
                Some(DetectedAurHelper::Paru)
            } else if has_binary(yay) {
                Some(DetectedAurHelper::Yay)
            } else {
                None
            }
        },
    }
}

/// Picks the helper: none where the user repository is switched off, else
/// as `detect_aur_helper_with_path` does.
pub fn detect_aur_helper(
    mode: AurHelperMode,
    enable_aur: bool,
    paru: &Vec<FileProbe>,
    yay: &Vec<FileProbe>,
) -> (helper: Option<DetectedAurHelper>)
    ensures
        helper == if enable_aur {
            chosen(mode, present(paru@), present(yay@))
        } else {
            None
        },
{
    if !enable_aur {
        return None;
    }
    detect_aur_helper_with_path(mode, paru, yay)
}

} // verus!
