//! AssetMatcher: maps a target platform (case-insensitively) to the
//! file-name suffixes of the update artifact, its detached signature and
//! the plain installer.  Unknown targets yield empty suffixes, which
//! callers must treat as an invalid-target error.

use vstd::prelude::*;
use crate::text::chars_of;
use crate::text::chars_eq_str;

verus! {

/// ASCII lower-casing of one character; everything but `A`..`Z` is kept.
pub open spec fn lower_char(c: char) -> char {
    match c {
        'A' => 'a',
        'B' => 'b',
        'C' => 'c',
        'D' => 'd',
        'E' => 'e',
        'F' => 'f',
        'G' => 'g',
        'H' => 'h',
        'I' => 'i',
        'J' => 'j',
        'K' => 'k',
        'L' => 'l',
        'M' => 'm',
        'N' => 'n',
        'O' => 'o',
        'P' => 'p',
        'Q' => 'q',
        'R' => 'r',
        'S' => 's',
        'T' => 't',
        'U' => 'u',
        'V' => 'v',
        'W' => 'w',
        'X' => 'x',
        'Y' => 'y',
        'Z' => 'z',
        _ => c,
    }
}

/// ASCII lower-casing of a whole character sequence.
pub open spec fn lower(s: Seq<char>) -> Seq<char> {
    s.map_values(|c: char| lower_char(c))
}

/// The target names that select the macOS artifacts.
pub open spec fn is_mac_target(t: Seq<char>) -> bool {
    lower(t) == "mac"@ || lower(t) == "macos"@ || lower(t) == "darwin"@
}

/// The target name that selects the Linux artifacts.
pub open spec fn is_linux_target(t: Seq<char>) -> bool {
    lower(t) == "linux"@
}

/// The target name that selects the Windows artifacts.
pub open spec fn is_windows_target(t: Seq<char>) -> bool {
    lower(t) == "windows"@
}

/// Any recognized target platform.
pub open spec fn is_supported_target(t: Seq<char>) -> bool {
    is_mac_target(t) || is_linux_target(t) || is_windows_target(t)
}

/// The (artifact, signature) suffix pair of the update package for a
/// target, empty for an unrecognized target.
pub open spec fn spec_update_suffixes(t: Seq<char>) -> (Seq<char>, Seq<char>) {
    if is_mac_target(t) {
        (".app.tar.gz"@, ".app.tar.gz.sig"@)
    } else if is_linux_target(t) {
        (".AppImage.tar.gz"@, ".AppImage.tar.gz.sig"@)
    } else if is_windows_target(t) {
        (".nsis.zip"@, ".nsis.zip.sig"@)
    } else {
        (Seq::<char>::empty(), Seq::<char>::empty())
    }
}

/// The suffix of the plain installer for a target, empty for an
/// unrecognized target.
pub open spec fn spec_install_suffix(t: Seq<char>) -> Seq<char> {
    if is_mac_target(t) {
        ".dmg"@
    } else if is_linux_target(t) {
        ".AppImage"@
    } else if is_windows_target(t) {
        "-setup.exe"@
    } else {
        Seq::<char>::empty()
    }
}

/// The lower-cased characters of `s`.
fn lowered_chars(s: &str) -> (r: Vec<char>)
    ensures
        r@ == lower(s@),
{
    let cs = chars_of(s);
    let mut r: Vec<char> = Vec::new();
    let mut i: usize = 0;
    while i < cs.len()
        invariant
            cs@ == s@,
            i <= cs.len(),
            r@.len() == i,
            forall|j: int| 0 <= j < i ==> r@[j] == lower_char(s@[j]),
        decreases cs.len() - i,
    {
        let c = cs[i];
        let lc = match c {
            'A' => 'a',
            'B' => 'b',
            'C' => 'c',
            'D' => 'd',
            'E' => 'e',
            'F' => 'f',
            'G' => 'g',
            'H' => 'h',
            'I' => 'i',
            'J' => 'j',
            'K' => 'k',
            'L' => 'l',
            'M' => 'm',
            'N' => 'n',
            'O' => 'o',
            'P' => 'p',
            'Q' => 'q',
            'R' => 'r',
            'S' => 's',
            'T' => 't',
            'U' => 'u',
            'V' => 'v',
            'W' => 'w',
            'X' => 'x',
            'Y' => 'y',
            'Z' => 'z',
            _ => c,
        };
        assert(lc == lower_char(s@[i as int]));
        r.push(lc);
        i += 1;
    }
    assert(r@ =~= lower(s@));
    r
}

/// Which of the recognized platforms `target` names, if any, compared
/// case-insensitively.
fn classify_target(target: &str) -> (r: (bool, bool, bool))
    ensures
        r.0 == is_mac_target(target@),
        r.1 == is_linux_target(target@),
        r.2 == is_windows_target(target@),
{
    let low = lowered_chars(target);
    let mac = chars_eq_str(&low, "mac") || chars_eq_str(&low, "macos") || chars_eq_str(
        &low,
        "darwin",
    );
    let linux = chars_eq_str(&low, "linux");
    let windows = chars_eq_str(&low, "windows");
    (mac, linux, windows)
}

/// The file-name suffixes identifying the update artifact and its
/// signature for `target`; both are empty exactly when the target is
/// unrecognized.  `arch` is accepted but unused by the matching rule.
pub fn update_suffixes(target: &str, _arch: &str) -> (r: (String, String))
    ensures
        r.0@ == spec_update_suffixes(target@).0,
        r.1@ == spec_update_suffixes(target@).1,
        r.0@.len() == 0 <==> !is_supported_target(target@),
        r.1@.len() == 0 <==> !is_supported_target(target@),
{
    let (mac, linux, windows) = classify_target(target);
    proof {
        reveal_strlit(".app.tar.gz");
        reveal_strlit(".app.tar.gz.sig");
        reveal_strlit(".AppImage.tar.gz");
        reveal_strlit(".AppImage.tar.gz.sig");
        reveal_strlit(".nsis.zip");
        reveal_strlit(".nsis.zip.sig");
        reveal_strlit("");
    }
    if mac {
        (String::from_str(".app.tar.gz"), String::from_str(".app.tar.gz.sig"))
    } else if linux {
        (String::from_str(".AppImage.tar.gz"), String::from_str(".AppImage.tar.gz.sig"))
    } else if windows {
        (String::from_str(".nsis.zip"), String::from_str(".nsis.zip.sig"))
    } else {
        assert(""@ =~= Seq::<char>::empty());
        (String::from_str(""), String::from_str(""))
    }
}

/// The file-name suffix identifying the plain installer for `target`;
/// empty exactly when the target is unrecognized.  `arch` is accepted
/// but unused by the matching rule.
pub fn install_suffix(target: &str, _arch: &str) -> (r: String)
    ensures
        r@ == spec_install_suffix(target@),
        r@.len() == 0 <==> !is_supported_target(target@),
{
    let (mac, linux, windows) = classify_target(target);
    proof {
        reveal_strlit(".dmg");
        reveal_strlit(".AppImage");
        reveal_strlit("-setup.exe");
        reveal_strlit("");
    }
    if mac {
        String::from_str(".dmg")
    } else if linux {
        String::from_str(".AppImage")
    } else if windows {
        String::from_str("-setup.exe")
    } else {
        assert(""@ =~= Seq::<char>::empty());
        String::from_str("")
    }
}

/// The matching rule reads the target only through its lower-cased form,
/// so any two spellings of one platform name select the same suffixes.
pub proof fn lemma_suffixes_case_insensitive(t1: Seq<char>, t2: Seq<char>)
    requires
        lower(t1) == lower(t2),
    ensures
        spec_update_suffixes(t1) == spec_update_suffixes(t2),
        spec_install_suffix(t1) == spec_install_suffix(t2),
{
}

/// Every supported target gets non-empty artifact, signature and
/// installer suffixes; every other target gets empty ones.
pub proof fn lemma_supported_suffixes_nonempty(t: Seq<char>)
    ensures
        is_supported_target(t) ==> spec_update_suffixes(t).0.len() > 0
            && spec_update_suffixes(t).1.len() > 0 && spec_install_suffix(t).len() > 0,
        !is_supported_target(t) ==> spec_update_suffixes(t).0.len() == 0
            && spec_update_suffixes(t).1.len() == 0 && spec_install_suffix(t).len() == 0,
{
    reveal_strlit(".app.tar.gz");
    reveal_strlit(".app.tar.gz.sig");
    reveal_strlit(".AppImage.tar.gz");
    reveal_strlit(".AppImage.tar.gz.sig");
    reveal_strlit(".nsis.zip");
    reveal_strlit(".nsis.zip.sig");
    reveal_strlit(".dmg");
    reveal_strlit(".AppImage");
    reveal_strlit("-setup.exe");
}

} // verus!
