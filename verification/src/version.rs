//! Release metadata and version comparison for the update checker.
//!
//! A release tag such as `v4.19.1-beta.3` is split into numeric components
//! (the pre-release label mapping to a number) and compared lexicographically
//! component by component, a shorter version losing to a longer one that it
//! prefixes. Everything here works on the tag and asset names as plain text;
//! fetching releases and downloading assets is outside the library.

use vstd::prelude::*;
use core::cmp::Ordering;
use crate::strutil::{
    chars_of, contains_char, contains_sub, spec_contains_char, spec_contains_sub, spec_split_on,
    spec_to_lower, split_on, str_eq, to_ascii_lower,
};

verus! {

/// Which release channel an update is taken from.
#[derive(Debug, Clone, Copy, PartialEq, Eq, Structural)]
pub enum Version {
    Stable,
    Nightly,
}

/// One downloadable file attached to a release.
pub struct Asset {
    pub url: String,
    pub id: i64,
    pub node_id: String,
    pub name: String,
    pub label: String,
    pub content_type: String,
    pub state: String,
    pub size: i64,
    pub download_count: i64,
    pub created_at: String,
    pub updated_at: String,
    pub browser_download_url: String,
}

/// One published release: its tag and its downloadable assets.
pub struct RepoRelease {
    pub tag_name: String,
    pub assets: Vec<Asset>,
}

/// A list of published releases, newest first.
pub type RepoReleases = Vec<RepoRelease>;

/// The last dot-separated segment of a version string.
pub open spec fn spec_last_segment(s: Seq<char>) -> Seq<char> {
    spec_split_on(s, '.').last()
}

/// Whether a tag names a nightly build: it carries a pre-release part and
/// its last dot-segment is a commit marker (`g` followed by at least six
/// more characters).
pub open spec fn spec_is_nightly(s: Seq<char>) -> bool {
    spec_contains_char(s, '-') && spec_last_segment(s).len() >= 7 && spec_last_segment(s)[0] == 'g'
}

/// Whether a tag names a standard release: not the debug placeholder, not a
/// commit hash (leading `c`), not a date (leading `20`), not a local build,
/// not a nightly.
pub open spec fn spec_is_std(s: Seq<char>) -> bool {
    !(s == "DEBUG VERSION"@ || (s.len() >= 1 && s[0] == 'c') || (s.len() >= 2 && s[0] == '2'
        && s[1] == '0') || spec_contains_sub(s, "local"@) || spec_is_nightly(s))
}

/// Whether `version` names a nightly build.
pub fn is_nightly_version(version: &str) -> (r: bool)
    ensures
        r == spec_is_nightly(version@),
{
    let cs = chars_of(version);
    let has_dash = contains_char(&cs, '-');
    if !has_dash {
        return false;
    }
    let parts = split_on(&cs, '.');
    let last = &parts[parts.len() - 1];
    proof {
        assert(last@ == parts@.map_values(|p: Vec<char>| p@).last());
    }
    if last.len() >= 7 {
        last[0] == 'g'
    } else {
        false
    }
}

/// Whether `version` names a standard release.
pub fn is_std_version(version: &str) -> (r: bool)
    ensures
        r == spec_is_std(version@),
{
    if str_eq(version, "DEBUG VERSION") {
        return false;
    }
    let cs = chars_of(version);
    if cs.len() >= 1 && cs[0] == 'c' {
        return false;
    }
    if cs.len() >= 2 && cs[0] == '2' && cs[1] == '0' {
        return false;
    }
    let local = chars_of("local");
    if contains_sub(&cs, &local) {
        return false;
    }
    if is_nightly_version(version) {
        return false;
    }
    true
}

/// Whether `c` is a decimal digit.
pub open spec fn spec_is_digit(c: char) -> bool {
    '0' <= c && c <= '9'
}

/// The value of the digit `c`.
pub open spec fn spec_digit_val(c: char) -> int {
    (c as u32) as int - ('0' as u32) as int
}

/// Whether every character of `s` is a decimal digit.
pub open spec fn spec_all_digits(s: Seq<char>) -> bool {
    forall|i: int| 0 <= i < s.len() ==> spec_is_digit(#[trigger] s[i])
}

/// The number written in decimal as `s` (assuming digits).
pub open spec fn spec_num_val(s: Seq<char>) -> int
    decreases s.len(),
{
    if s.len() == 0 {
        0
    } else {
        spec_num_val(s.drop_last()) * 10 + spec_digit_val(s.last())
    }
}

/// What parsing a version component yields: the value of a nonempty all-digit
/// string that fits, nothing otherwise.
pub open spec fn spec_parse_u32(s: Seq<char>) -> Option<u32> {
    if s.len() > 0 && spec_all_digits(s) && spec_num_val(s) <= u32::MAX {
        Some(spec_num_val(s) as u32)
    } else {
        None
    }
}

/// The value of an all-digit string is never negative.
proof fn lemma_num_val_nonneg(s: Seq<char>)
    requires
        spec_all_digits(s),
    ensures
        spec_num_val(s) >= 0,
    decreases s.len(),
{
    if s.len() > 0 {
        assert(spec_all_digits(s.drop_last())) by {
            assert(forall|i: int|
                0 <= i < s.drop_last().len() ==> #[trigger] s.drop_last()[i] == s[i]);
        }
        lemma_num_val_nonneg(s.drop_last());
    }
}

/// A longer all-digit string never has a smaller value than its prefix.
proof fn lemma_num_val_prefix(s: Seq<char>, k: int)
    requires
        spec_all_digits(s),
        0 <= k <= s.len(),
    ensures
        spec_num_val(s) >= spec_num_val(s.take(k)),
    decreases s.len() - k,
{
    if k < s.len() {
        lemma_num_val_prefix(s, k + 1);
        assert(s.take(k + 1).drop_last() =~= s.take(k));
        assert(spec_all_digits(s.take(k))) by {
            assert(forall|i: int| 0 <= i < k ==> #[trigger] s.take(k)[i] == s[i]);
        }
        lemma_num_val_nonneg(s.take(k));
        assert(spec_num_val(s.take(k + 1)) == spec_num_val(s.take(k)) * 10 + spec_digit_val(
            s.take(k + 1).last(),
        ));
        assert(spec_digit_val(s.take(k + 1).last()) >= 0);
    } else {
        assert(s.take(k) == s);
    }
}

/// Parses one version component.
pub fn parse_u32(v: &Vec<char>) -> (r: Option<u32>)
    ensures
        r == spec_parse_u32(v@),
{
    if v.len() == 0 {
        return None;
    }
    let mut val: u32 = 0;
    let mut i: usize = 0;
    proof {
        assert(v@.take(0) =~= Seq::<char>::empty());
    }
    while i < v.len()
        invariant
            i <= v@.len(),
            spec_all_digits(v@.take(i as int)),
            val as int == spec_num_val(v@.take(i as int)),
        decreases v@.len() - i,
    {
        let c = v[i];
        if !('0' <= c && c <= '9') {
            proof {
                assert(!spec_is_digit(v@[i as int]));
                assert(!spec_all_digits(v@));
            }
            return None;
        }
        let d: u32 = (c as u32) - ('0' as u32);
        proof {
            assert(v@.take(i + 1).drop_last() =~= v@.take(i as int));
            assert(v@.take(i + 1).last() == v@[i as int]);
            assert(spec_all_digits(v@.take(i + 1))) by {
                assert(forall|j: int|
                    0 <= j < i + 1 ==> #[trigger] v@.take(i + 1)[j] == v@.take(i as int + 1)[j]);
            }
        }
        if val > (u32::MAX - d) / 10 {
            proof {
                assert(spec_num_val(v@.take(i + 1)) == val as int * 10 + d);
                assert(val as int * 10 + d > u32::MAX) by (nonlinear_arith)
                    requires
                        val as int > (u32::MAX as int - d) / 10,
                        0 <= d <= 9,
                ;
                if spec_all_digits(v@) {
                    lemma_num_val_prefix(v@, i + 1);
                    assert(spec_num_val(v@) > u32::MAX);
                }
            }
            return None;
        }
        val = val * 10 + d;
        i = i + 1;
    }
    proof {
        assert(v@.take(v@.len() as int) == v@);
    }
    Some(val)
}

/// What parsing every component yields: all values, or nothing if any
/// component fails.
pub open spec fn spec_parse_all(parts: Seq<Seq<char>>) -> Option<Seq<u32>>
    decreases parts.len(),
{
    if parts.len() == 0 {
        Some(Seq::empty())
    } else {
        match spec_parse_all(parts.drop_last()) {
            Some(v) => match spec_parse_u32(parts.last()) {
                Some(x) => Some(v.push(x)),
                None => None,
            },
            None => None,
        }
    }
}

/// Parses every component, failing if any fails.
fn parse_all(parts: &Vec<Vec<char>>) -> (r: Option<Vec<u32>>)
    ensures
        match spec_parse_all(parts@.map_values(|p: Vec<char>| p@)) {
            Some(m) => r matches Some(v) && v@ == m,
            None => r is None,
        },
{
    let ghost model = parts@.map_values(|p: Vec<char>| p@);
    let mut out: Vec<u32> = Vec::new();
    let mut i: usize = 0;
    proof {
        assert(model.take(0) =~= Seq::<Seq<char>>::empty());
    }
    while i < parts.len()
        invariant
            i <= parts@.len(),
            model == parts@.map_values(|p: Vec<char>| p@),
            spec_parse_all(model.take(i as int)) matches Some(m) && m == out@,
        decreases parts@.len() - i,
    {
        proof {
            assert(model.take(i + 1).drop_last() =~= model.take(i as int));
            assert(model.take(i + 1).last() == model[i as int]);
            assert(model[i as int] == parts@[i as int]@);
        }
        match parse_u32(&parts[i]) {
            Some(x) => {
                out.push(x);
            },
            None => {
                proof {
                    lemma_parse_all_prefix_none(model, i as int + 1);
                }
                return None;
            },
        }
        i = i + 1;
    }
    proof {
        assert(model.take(model.len() as int) == model);
    }
    Some(out)
}

/// Once a prefix fails to parse, the whole list fails.
proof fn lemma_parse_all_prefix_none(parts: Seq<Seq<char>>, k: int)
    requires
        0 <= k <= parts.len(),
        spec_parse_all(parts.take(k)) is None,
    ensures
        spec_parse_all(parts) is None,
    decreases parts.len() - k,
{
    if k < parts.len() {
        assert(parts.take(k + 1).drop_last() =~= parts.take(k));
        lemma_parse_all_prefix_none(parts, k + 1);
    } else {
        assert(parts.take(k) == parts);
    }
}

/// The pre-release label's numeric stand-in: `alpha`, `beta` and `rc` order
/// as one, two, three; anything else is taken as written.
pub open spec fn spec_map_prerelease(s: Seq<char>) -> Seq<char> {
    if s == "alpha"@ {
        "1"@
    } else if s == "beta"@ {
        "2"@
    } else if s == "rc"@ {
        "3"@
    } else {
        s
    }
}

/// The version component list of `pre`, its first dot-segment stripped of a
/// leading `v`.
pub open spec fn spec_strip_v(parts: Seq<Seq<char>>) -> Seq<Seq<char>> {
    if parts[0].len() > 0 && parts[0][0] == 'v' {
        parts.update(0, parts[0].skip(1))
    } else {
        parts
    }
}

/// What splitting a version tag yields: the numeric components of the part
/// before the first dash, then — if a pre-release part follows the dash —
/// its dot-segments except the last, the first mapped through the label
/// table. Nothing if any component fails to parse, or if the pre-release
/// part has fewer than two dot-segments.
pub open spec fn spec_split_version(s: Seq<char>) -> Option<Seq<u32>> {
    let dash = spec_split_on(s, '-');
    let pre = spec_strip_v(spec_split_on(dash[0], '.'));
    if dash.len() >= 2 && dash[1].len() > 0 {
        let sub = spec_split_on(dash[1], '.');
        if sub.len() < 2 {
            None
        } else {
            let kept = sub.drop_last();
            let mapped = kept.update(0, spec_map_prerelease(kept[0]));
            spec_parse_all(pre + mapped)
        }
    } else {
        spec_parse_all(pre)
    }
}

/// Splits a version tag into its numeric components.
pub fn split_version(version: &str) -> (r: Option<Vec<u32>>)
    ensures
        match spec_split_version(version@) {
            Some(m) => r matches Some(v) && v@ == m,
            None => r is None,
        },
{
    let cs = chars_of(version);
    let mut dash = split_on(&cs, '-');
    let ghost dash_model = dash@.map_values(|p: Vec<char>| p@);
    let pre_src = dash.remove(0);
    let mut pre = split_on(&pre_src, '.');
    let ghost pre_model0 = pre@.map_values(|p: Vec<char>| p@);
    if pre[0].len() > 0 && pre[0][0] == 'v' {
        let first = pre.remove(0);
        let stripped = crate::strutil::drop_first(&first);
        pre.insert(0, stripped);
        proof {
            assert(pre@.map_values(|p: Vec<char>| p@) =~= spec_strip_v(pre_model0));
        }
    }
    proof {
        assert(pre@.map_values(|p: Vec<char>| p@) == spec_strip_v(pre_model0));
    }
    if dash.len() >= 1 && dash[0].len() > 0 {
        let mut sub = split_on(&dash[0], '.');
        let ghost sub_model = sub@.map_values(|p: Vec<char>| p@);
        proof {
            assert(dash@[0]@ == dash_model[1]);
        }
        if sub.len() < 2 {
            return None;
        }
        sub.pop();
        proof {
            assert(sub@.map_values(|p: Vec<char>| p@) =~= sub_model.drop_last());
        }
        let first = sub.remove(0);
        let mapped = map_prerelease(&first);
        sub.insert(0, mapped);
        proof {
            assert(sub@.map_values(|p: Vec<char>| p@) =~= sub_model.drop_last().update(
                0,
                spec_map_prerelease(sub_model.drop_last()[0]),
            ));
        }
        let mut all = pre;
        let ghost all_model0 = all@.map_values(|p: Vec<char>| p@);
        let mut j: usize = 0;
        while j < sub.len()
            invariant
                j <= sub@.len(),
                all@.map_values(|p: Vec<char>| p@) == all_model0 + sub@.map_values(
                    |p: Vec<char>| p@,
                ).take(j as int),
            decreases sub@.len() - j,
        {
            let ghost before = all@.map_values(|p: Vec<char>| p@);
            let piece = copy_chars(&sub[j]);
            all.push(piece);
            proof {
                assert(all@.map_values(|p: Vec<char>| p@) =~= before.push(sub@[j as int]@));
                assert(sub@.map_values(|p: Vec<char>| p@).take(j + 1) =~= sub@.map_values(
                    |p: Vec<char>| p@,
                ).take(j as int).push(sub@[j as int]@));
            }
            j = j + 1;
        }
        proof {
            assert(sub@.map_values(|p: Vec<char>| p@).take(sub@.len() as int) == sub@.map_values(
                |p: Vec<char>| p@,
            ));
        }
        parse_all(&all)
    } else {
        parse_all(&pre)
    }
}

/// The numeric stand-in for a pre-release label.
fn map_prerelease(v: &Vec<char>) -> (r: Vec<char>)
    ensures
        r@ == spec_map_prerelease(v@),
{
    if crate::strutil::chars_eq_str(v, "alpha") {
        chars_of("1")
    } else if crate::strutil::chars_eq_str(v, "beta") {
        chars_of("2")
    } else if crate::strutil::chars_eq_str(v, "rc") {
        chars_of("3")
    } else {
        copy_chars(v)
    }
}

/// A fresh vector with the same characters.
fn copy_chars(v: &Vec<char>) -> (r: Vec<char>)
    ensures
        r@ == v@,
{
    let mut r: Vec<char> = Vec::new();
    let mut i: usize = 0;
    while i < v.len()
        invariant
            i <= v@.len(),
            r@ == v@.take(i as int),
        decreases v@.len() - i,
    {
        r.push(v[i]);
        proof {
            assert(v@.take(i + 1) == v@.take(i as int).push(v@[i as int]));
        }
        i = i + 1;
    }
    proof {
        assert(v@.take(v@.len() as int) == v@);
    }
    r
}

/// Componentwise comparison: the first differing component decides; a list
/// that runs out first loses to a longer one it prefixes.
pub open spec fn spec_compare_lists(x: Seq<u32>, y: Seq<u32>) -> Ordering
    decreases x.len(),
{
    if x.len() == 0 {
        if y.len() > 0 {
            Ordering::Less
        } else {
            Ordering::Equal
        }
    } else if y.len() == 0 {
        Ordering::Greater
    } else if x[0] < y[0] {
        Ordering::Less
    } else if x[0] > y[0] {
        Ordering::Greater
    } else {
        spec_compare_lists(x.skip(1), y.skip(1))
    }
}

/// Compares two component lists.
fn compare_lists(x: &Vec<u32>, y: &Vec<u32>) -> (r: Ordering)
    ensures
        r == spec_compare_lists(x@, y@),
{
    let mut i: usize = 0;
    proof {
        assert(x@.skip(0) == x@);
        assert(y@.skip(0) == y@);
    }
    while i < x.len() && i < y.len()
        invariant
            i <= x@.len(),
            i <= y@.len(),
            spec_compare_lists(x@.skip(i as int), y@.skip(i as int)) == spec_compare_lists(x@, y@),
        decreases x@.len() - i,
    {
        proof {
            assert(x@.skip(i as int)[0] == x@[i as int]);
            assert(y@.skip(i as int)[0] == y@[i as int]);
            assert(x@.skip(i as int).skip(1) == x@.skip(i + 1));
            assert(y@.skip(i as int).skip(1) == y@.skip(i + 1));
        }
        if x[i] < y[i] {
            return Ordering::Less;
        }
        if x[i] > y[i] {
            return Ordering::Greater;
        }
        i = i + 1;
    }
    if x.len() < y.len() {
        Ordering::Less
    } else if x.len() > y.len() {
        Ordering::Greater
    } else {
        Ordering::Equal
    }
}

/// Compares two version tags componentwise. Defined for tags whose
/// components parse and that do not leave the comparison undecided by one
/// tag running out while equal to the other's prefix with the first being
/// longer.
pub fn compare_version(a: &str, b: &str) -> (r: Ordering)
    requires
        spec_split_version(a@) is Some,
        spec_split_version(b@) is Some,
        spec_split_version(a@)->Some_0.len() <= spec_split_version(b@)->Some_0.len() || exists|
            i: int,
        |
            0 <= i < spec_split_version(b@)->Some_0.len() && #[trigger] spec_split_version(
                a@,
            )->Some_0[i] != spec_split_version(b@)->Some_0[i],
    ensures
        r == spec_compare_lists(spec_split_version(a@)->Some_0, spec_split_version(b@)->Some_0),
{
    let xa = split_version(a);
    let xb = split_version(b);
    match (xa, xb) {
        (Some(va), Some(vb)) => compare_lists(&va, &vb),
        _ => Ordering::Equal,
    }
}

/// Whether the lowercased asset name marks the over-the-air package for
/// updating `version` to `latest` on the desktop platform.
pub open spec fn spec_asset_matches(name: Seq<char>, version: Seq<char>, latest: Seq<char>) -> bool {
    let low = spec_to_lower(name);
    spec_contains_sub(low, "ota"@) && spec_contains_sub(low, "win"@) && spec_contains_sub(
        low,
        version + "_"@ + latest,
    )
}

/// The first asset whose name marks the over-the-air package from `version`
/// to `latest`, if any.
pub fn select_ota_asset(version: &str, latest: &str, assets: &Vec<Asset>) -> (r: Option<usize>)
    ensures
        match r {
            Some(i) => i < assets@.len() && spec_asset_matches(
                assets@[i as int].name@,
                version@,
                latest@,
            ) && forall|j: int|
                0 <= j < i ==> !spec_asset_matches(assets@[j].name@, version@, latest@),
            None => forall|j: int|
                0 <= j < assets@.len() ==> !spec_asset_matches(assets@[j].name@, version@, latest@),
        },
{
    let ota = chars_of("ota");
    let win = chars_of("win");
    let mut pattern = chars_of(version);
    let mut under = chars_of("_");
    let mut latest_cs = chars_of(latest);
    pattern.append(&mut under);
    pattern.append(&mut latest_cs);
    proof {
        assert(pattern@ == version@ + "_"@ + latest@);
    }
    let mut i: usize = 0;
    while i < assets.len()
        invariant
            i <= assets@.len(),
            pattern@ == version@ + "_"@ + latest@,
            ota@ == "ota"@,
            win@ == "win"@,
            forall|j: int|
                0 <= j < i ==> !spec_asset_matches(assets@[j].name@, version@, latest@),
        decreases assets@.len() - i,
    {
        let name_cs = chars_of(assets[i].name.as_str());
        let low = to_ascii_lower(&name_cs);
        if contains_sub(&low, &ota) && contains_sub(&low, &win) && contains_sub(&low, &pattern) {
            return Some(i);
        }
        i = i + 1;
    }
    None
}

/// The first release whose tag is not a standard release: the newest nightly.
pub fn select_nightly_release(releases: &Vec<RepoRelease>) -> (r: Option<usize>)
    ensures
        match r {
            Some(i) => i < releases@.len() && !spec_is_std(releases@[i as int].tag_name@) && forall|
                j: int,
            | 0 <= j < i ==> spec_is_std(#[trigger] releases@[j].tag_name@),
            None => forall|j: int|
                0 <= j < releases@.len() ==> spec_is_std(#[trigger] releases@[j].tag_name@),
        },
{
    let mut i: usize = 0;
    while i < releases.len()
        invariant
            i <= releases@.len(),
            forall|j: int| 0 <= j < i ==> spec_is_std(#[trigger] releases@[j].tag_name@),
        decreases releases@.len() - i,
    {
        if !is_std_version(releases[i].tag_name.as_str()) {
            return Some(i);
        }
        i = i + 1;
    }
    None
}

/// Whether an update from `version` to `latest` is wanted: exactly when the
/// current version compares strictly below the latest tag. (A tag equal to
/// the current version compares equal, so it never triggers an update.)
pub fn update_available(version: &str, latest: &str) -> (r: bool)
    requires
        spec_split_version(version@) is Some,
        spec_split_version(latest@) is Some,
        spec_split_version(version@)->Some_0.len() <= spec_split_version(latest@)->Some_0.len()
            || exists|i: int|
            0 <= i < spec_split_version(latest@)->Some_0.len() && #[trigger] spec_split_version(
                version@,
            )->Some_0[i] != spec_split_version(latest@)->Some_0[i],
    ensures
        r == (spec_compare_lists(
            spec_split_version(version@)->Some_0,
            spec_split_version(latest@)->Some_0,
        ) == Ordering::Less),
{
    let c = compare_version(version, latest);
    match c {
        Ordering::Less => true,
        _ => false,
    }
}

} // verus!
