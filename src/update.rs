use vstd::prelude::*;

verus! {

/// The outcome of a check for a newer release.
pub enum VersionCheck {
    /// This is the newest release.
    UpToDate,
    /// A newer release exists.
    UpdateAvailable { latest: String, current: String },
    /// The check could not be made.
    CheckFailed(String),
}

/// How the program was installed, and so how it is updated.
pub enum PackageManager {
    Cargo,
    Homebrew { formula: String },
}

impl PackageManager {
    /// The name of the tool.
    pub fn name(&self) -> (r: &'static str)
        ensures
            r@ == match self {
                PackageManager::Cargo => "cargo"@,
                PackageManager::Homebrew { .. } => "brew"@,
            },
    {
        match self {
            PackageManager::Cargo => "cargo",
            PackageManager::Homebrew { .. } => "brew",
        }
    }

    /// The command that updates the program.
    pub fn update_command(&self) -> (r: String)
        ensures
            r@ == match self {
                PackageManager::Cargo => "cargo install perch"@,
                PackageManager::Homebrew { formula } => "brew upgrade "@ + formula@,
            },
    {
        match self {
            PackageManager::Cargo => String::from_str("cargo install perch"),
            PackageManager::Homebrew { formula } => crate::text::concat2("brew upgrade ", formula.as_str()),
        }
    }
}

/// The pieces of `s` between the `c` characters, as `str::split` gives them.
pub open spec fn split_on(s: Seq<char>, c: char) -> Seq<Seq<char>>
    decreases s.len(),
{
    if s.len() == 0 {
        seq![seq![]]
    } else {
        let init = split_on(s.drop_last(), c);
        if s.last() == c {
            init.push(seq![])
        } else {
            init.update(init.len() - 1, init.last().push(s.last()))
        }
    }
}

proof fn lemma_split_nonempty(s: Seq<char>, c: char)
    ensures
        split_on(s, c).len() >= 1,
    decreases s.len(),
{
    if s.len() > 0 {
        lemma_split_nonempty(s.drop_last(), c);
    }
}

/// The value of a string of decimal digits.
pub open spec fn digits_value(s: Seq<char>) -> nat
    decreases s.len(),
{
    if s.len() == 0 {
        0
    } else {
        digits_value(s.drop_last()) * 10 + (s.last() as nat - '0' as nat) as nat
    }
}

/// A string without its leading `+`, if it has one.
pub open spec fn unsigned_part(s: Seq<char>) -> Seq<char> {
    if s.len() > 0 && s[0] == '+' {
        s.drop_first()
    } else {
        s
    }
}

/// Holds when every character is a decimal digit.
pub open spec fn all_digits(d: Seq<char>) -> bool {
    forall|i: int| 0 <= i < d.len() ==> '0' <= #[trigger] d[i] <= '9'
}

/// What `str::parse::<u32>` gives: an optional `+`, then at least one decimal digit, with a
/// value that fits in 32 bits.
pub open spec fn u32_parsed(s: Seq<char>) -> Option<u32> {
    let d = unsigned_part(s);
    if d.len() > 0 && all_digits(d) && digits_value(d) <= u32::MAX {
        Some(digits_value(d) as u32)
    } else {
        None
    }
}

proof fn lemma_digits_grow(s: Seq<char>, i: int)
    requires
        0 <= i <= s.len(),
        all_digits(s),
    ensures
        digits_value(s) >= digits_value(s.subrange(0, i)),
    decreases s.len() - i,
{
    if i < s.len() {
        lemma_digits_grow(s, i + 1);
        let t = s.subrange(0, i + 1);
        assert(t.drop_last() =~= s.subrange(0, i));
    } else {
        assert(s.subrange(0, i) =~= s);
    }
}

/// Parses a decimal `u32` as `str::parse::<u32>` does: an optional `+`, then at least one
/// digit, with a value that fits in 32 bits.
pub fn parse_u32(s: &str) -> (r: Option<u32>)
    ensures
        r == u32_parsed(s@),
{
    let n = s.unicode_len();
    let start: usize = if n > 0 && s.get_char(0) == '+' {
        1
    } else {
        0
    };
    let ghost d = s@.subrange(start as int, n as int);
    assert(d =~= unsigned_part(s@));
    if start == n {
        return None;
    }
    let mut value: u64 = 0;
    let mut i: usize = start;
    while i < n
        invariant
            start <= i <= n,
            n == s@.len(),
            d == s@.subrange(start as int, n as int),
            d == unsigned_part(s@),
            d.len() > 0,
            forall|k: int| 0 <= k < i - start ==> '0' <= #[trigger] d[k] <= '9',
            value == digits_value(d.subrange(0, i - start)),
            value <= u32::MAX,
        decreases n - i,
    {
        let c = s.get_char(i);
        if c < '0' || c > '9' {
            assert(d[i - start] == c);
            assert(!('0' <= d[i - start] <= '9'));
            assert(!all_digits(d));
            assert(u32_parsed(s@) is None);
            return None;
        }
        proof {
            let t = d.subrange(0, i - start + 1);
            assert(t.drop_last() =~= d.subrange(0, i - start));
            assert(t.last() == c);
        }
        let dv = (c as u32 - '0' as u32) as u64;
        value = value * 10 + dv;
        assert(value == digits_value(d.subrange(0, i - start + 1)));
        if value > 4294967295 {
            proof {
                let j = i - start + 1;
                if all_digits(d) {
                    lemma_digits_grow(d, j);
                    assert(digits_value(d) > u32::MAX);
                }
                assert(u32_parsed(s@) is None);
            }
            return None;
        }
        i = i + 1;
    }
    assert(d.subrange(0, (n - start) as int) =~= d);
    Some(value as u32)
}

/// The numbers that a version string holds: its dot-separated pieces that parse, in order.
pub open spec fn version_numbers(s: Seq<char>) -> Seq<u32> {
    split_on(s, '.').filter_map(|p: Seq<char>| u32_parsed(p))
}

fn split_dots(s: &str) -> (r: Vec<String>)
    ensures
        crate::text::texts(r@) == split_on(s@, '.'),
{
    let n = s.unicode_len();
    let mut out: Vec<String> = Vec::new();
    let mut start: usize = 0;
    let mut i: usize = 0;
    assert(crate::text::texts(out@) =~= Seq::<Seq<char>>::empty());
    assert(s@.subrange(0, 0) =~= Seq::<char>::empty());
    assert(crate::text::texts(out@).push(s@.subrange(0, 0)) =~= split_on(s@.subrange(0, 0), '.'));
    while i < n
        invariant
            n == s@.len(),
            start <= i <= n,
            split_on(s@.subrange(0, i as int), '.') == crate::text::texts(out@).push(
                s@.subrange(start as int, i as int),
            ),
        decreases n - i,
    {
        let ch = s.get_char(i);
        proof {
            let t = s@.subrange(0, i + 1);
            assert(t.drop_last() =~= s@.subrange(0, i as int));
            assert(t.last() == ch);
        }
        if ch == '.' {
            let piece = String::from_str(s.substring_char(start, i));
            out.push(piece);
            start = i + 1;
            proof {
                assert(crate::text::texts(out@) =~= crate::text::texts(out@.drop_last()).push(
                    piece@,
                ));
                assert(s@.subrange(start as int, i + 1) =~= seq![]);
            }
        } else {
            proof {
                assert(s@.subrange(start as int, i + 1) =~= s@.subrange(start as int, i as int).push(
                    ch,
                ));
            }
        }
        i = i + 1;
        proof {
            let ghost t = crate::text::texts(out@).push(s@.subrange(start as int, i as int));
            assert(split_on(s@.subrange(0, i as int), '.') =~= t);
        }
    }
    let last = String::from_str(s.substring_char(start, n));
    let ghost before = out@;
    out.push(last);
    proof {
        assert(s@.subrange(0, n as int) =~= s@);
        assert(crate::text::texts(out@) =~= crate::text::texts(before).push(last@));
    }
    out
}

/// The numbers that a version string holds.
pub fn version_parts(s: &str) -> (r: Vec<u32>)
    ensures
        r@ == version_numbers(s@),
{
    let pieces = split_dots(s);
    let ghost ps = split_on(s@, '.');
    let mut out: Vec<u32> = Vec::new();
    let mut i: usize = 0;
    while i < pieces.len()
        invariant
            i <= pieces@.len(),
            crate::text::texts(pieces@) == ps,
            out@ == ps.subrange(0, i as int).filter_map(|p: Seq<char>| u32_parsed(p)),
        decreases pieces@.len() - i,
    {
        let v = parse_u32(pieces[i].as_str());
        proof {
            let pre = ps.subrange(0, i + 1);
            assert(pre.drop_last() =~= ps.subrange(0, i as int));
            assert(pre.last() == pieces@[i as int]@);
            assert(pre =~= ps.subrange(0, i as int).push(pieces@[i as int]@));
        }
        match v {
            Some(x) => {
                out.push(x);
            },
            None => {},
        }
        proof {
            assert(out@ =~= ps.subrange(0, i + 1).filter_map(|p: Seq<char>| u32_parsed(p)));
        }
        i = i + 1;
    }
    assert(ps.subrange(0, i as int) =~= ps);
    out
}

/// The `i`th number of a version, 0 where it has fewer.
pub open spec fn part_or_zero(v: Seq<u32>, i: int) -> u32 {
    if 0 <= i < v.len() {
        v[i]
    } else {
        0
    }
}

/// Holds when the first three numbers of `latest`, compared in order, make it newer than
/// `current` (missing numbers count as 0).
pub open spec fn newer_parts(latest: Seq<u32>, current: Seq<u32>) -> bool {
    let (l0, l1, l2) = (part_or_zero(latest, 0), part_or_zero(latest, 1), part_or_zero(latest, 2));
    let (c0, c1, c2) = (
        part_or_zero(current, 0),
        part_or_zero(current, 1),
        part_or_zero(current, 2),
    );
    l0 > c0 || (l0 == c0 && (l1 > c1 || (l1 == c1 && l2 > c2)))
}

fn part_at(v: &Vec<u32>, i: usize) -> (r: u32)
    ensures
        r == part_or_zero(v@, i as int),
{
    if i < v.len() {
        v[i]
    } else {
        0
    }
}

/// Whether the version `latest` is newer than `current`, comparing major, minor and patch.
pub fn version_is_newer(latest: &str, current: &str) -> (r: bool)
    ensures
        r == newer_parts(version_numbers(latest@), version_numbers(current@)),
{
    let l = version_parts(latest);
    let c = version_parts(current);
    let mut i: usize = 0;
    while i < 3
        invariant
            i <= 3,
            l@ == version_numbers(latest@),
            c@ == version_numbers(current@),
            forall|k: int| 0 <= k < i ==> part_or_zero(l@, k) == part_or_zero(c@, k),
        decreases 3 - i,
    {
        let a = part_at(&l, i);
        let b = part_at(&c, i);
        if a > b {
            return true;
        }
        if a < b {
            return false;
        }
        i = i + 1;
    }
    false
}

/// The outcome of a release check, given the newest release that the registry names (or
/// `None` where its answer held none) and the running version.
pub fn update_check(latest: Option<String>, current: &str) -> (r: VersionCheck)
    ensures
        latest is None ==> (r matches VersionCheck::CheckFailed(m) && m@
            == "Could not parse crates.io response"@),
        latest matches Some(l) ==> if newer_parts(version_numbers(l@), version_numbers(current@)) {
            r matches VersionCheck::UpdateAvailable { latest: a, current: b } && a == l && b@
                == current@
        } else {
            r is UpToDate
        },
{
    match latest {
        None => VersionCheck::CheckFailed(String::from_str("Could not parse crates.io response")),
        Some(l) => {
            if version_is_newer(l.as_str(), current) {
                VersionCheck::UpdateAvailable { latest: l, current: String::from_str(current) }
            } else {
                VersionCheck::UpToDate
            }
        },
    }
}

} // verus!
