//! The identity of one sandbox session: its allocation id and the paths
//! derived from it.
use vstd::prelude::*;
use rand::Rng;
use crate::text::{padded, push_padded, push_bytes, copy_bytes, dec_value, lemma_value_of_padded, lemma_dec_len_small,
    lemma_padded_first_digit};

verus! {

/// A UTC minute: the part of the clock that names an allocation.
#[derive(Clone, Copy, Debug, PartialEq, Eq, Structural)]
pub struct Stamp {
    pub year: i32,
    pub month: u8,
    pub day: u8,
    pub hour: u8,
    pub minute: u8,
}

impl Stamp {
    pub open spec fn wf(self) -> bool {
        &&& 1 <= self.month <= 12
        &&& 1 <= self.day <= 31
        &&& self.hour < 24
        &&& self.minute < 60
    }

    /// The fields as plain integers.
    pub open spec fn fields(self) -> (int, int, int, int, int) {
        (self.year as int, self.month as int, self.day as int, self.hour as int, self.minute as int)
    }
}

/// The calendar fields (year, month, day, hour, minute) in UTC of the instant
/// `secs` seconds after the Unix epoch.
pub uninterp spec fn utc_fields_of(secs: int) -> (int, int, int, int, int);

/// The largest Unix timestamp of the calendar range, 9999-12-31 23:59:59 UTC.
pub const LAST_TIMESTAMP: i64 = 253402300799;

/// Relies on `time::OffsetDateTime::from_unix_timestamp`, which fails only
/// outside its calendar range (years -9999 to 9999 by default), and on the
/// documented ranges of its `day`, `hour` and `minute` accessors and of
/// `Month` as a number (1 to 12). The hour and minute are those of the
/// seconds within the UTC day.
#[verifier::external_body]
fn utc_stamp(secs: i64) -> (r: Option<Stamp>)
    ensures
        r matches Some(s) ==> s.wf() && s.fields() == utc_fields_of(secs as int),
        r matches Some(s) ==> s.hour as int == (secs as int % 86400) / 3600 && s.minute as int
            == (secs as int % 3600) / 60,
        0 <= secs <= LAST_TIMESTAMP ==> r is Some,
{
    match time::OffsetDateTime::from_unix_timestamp(secs) {
        Ok(t) => Some(
            Stamp {
                year: t.year(),
                month: u8::from(t.month()),
                day: t.day(),
                hour: t.hour(),
                minute: t.minute(),
            },
        ),
        Err(_) => None,
    }
}

/// An ASCII letter or digit.
pub open spec fn is_alnum(b: u8) -> bool {
    (48 <= b <= 57) || (65 <= b <= 90) || (97 <= b <= 122)
}

/// Relies on `rand::distributions::Alphanumeric`, sampled from the
/// thread-local generator: each draw is one of `A-Z`, `a-z`, `0-9`.
#[verifier::external_body]
fn random_alnum() -> (r: u8)
    ensures
        is_alnum(r),
{
    rand::thread_rng().sample(rand::distributions::Alphanumeric)
}

/// The number of random characters that end an allocation id.
pub const SUFFIX_LEN: usize = 7;

/// `len` random ASCII letters and digits.
pub fn random_token(len: usize) -> (r: Vec<u8>)
    ensures
        r@.len() == len,
        forall|i: int| 0 <= i < len ==> is_alnum(#[trigger] r@[i]),
{
    let mut r: Vec<u8> = Vec::new();
    let mut i: usize = 0;
    while i < len
        invariant
            i <= len,
            r@.len() == i,
            forall|k: int| 0 <= k < i ==> is_alnum(#[trigger] r@[k]),
        decreases len - i,
    {
        let b = random_alnum();
        r.push(b);
        i = i + 1;
    }
    r
}

/// `"-"`.
pub open spec fn dash() -> Seq<u8> {
    seq![45u8]
}

/// The year with at least four digits, `-` before a negative one.
pub open spec fn year_text(y: int) -> Seq<u8> {
    if y < 0 {
        dash() + padded((-y) as nat, 4)
    } else {
        padded(y as nat, 4)
    }
}

/// `YYYY-MM-DD-hhmm`.
pub open spec fn stamp_text(s: Stamp) -> Seq<u8> {
    year_text(s.year as int) + dash() + padded(s.month as nat, 2) + dash() + padded(s.day as nat, 2)
        + dash() + padded(s.hour as nat, 2) + padded(s.minute as nat, 2)
}

/// `YYYY-MM-DD-hhmm-<suffix>`.
pub open spec fn allocation_text(s: Stamp, suffix: Seq<u8>) -> Seq<u8> {
    stamp_text(s) + dash() + suffix
}

/// A suffix as drawn for an allocation id.
pub open spec fn valid_suffix(suffix: Seq<u8>) -> bool {
    &&& suffix.len() == SUFFIX_LEN
    &&& forall|i: int| 0 <= i < suffix.len() ==> is_alnum(#[trigger] suffix[i])
}

/// `id` names an allocation made at the instant `secs`.
pub open spec fn allocation_at(id: Seq<u8>, secs: int) -> bool {
    exists|s: Stamp, suffix: Seq<u8>|
        s.wf() && s.fields() == utc_fields_of(secs) && valid_suffix(suffix) && id
            == #[trigger] allocation_text(s, suffix)
}

proof fn lemma_two_digits(n: nat)
    requires
        n < 100,
    ensures
        padded(n, 2).len() == 2,
        dec_value(padded(n, 2)) == n,
{
    lemma_dec_len_small(n);
    lemma_value_of_padded(n, 2);
}

proof fn lemma_year_text_injective(a: int, b: int)
    requires
        year_text(a) == year_text(b),
    ensures
        a == b,
{
    if a < 0 {
        lemma_padded_first_digit((-a) as nat, 4);
    }
    if b < 0 {
        lemma_padded_first_digit((-b) as nat, 4);
    }
    if a >= 0 {
        lemma_padded_first_digit(a as nat, 4);
    }
    if b >= 0 {
        lemma_padded_first_digit(b as nat, 4);
    }
    if a < 0 && b < 0 {
        assert(year_text(a).drop_first() =~= padded((-a) as nat, 4));
        assert(year_text(b).drop_first() =~= padded((-b) as nat, 4));
        lemma_value_of_padded((-a) as nat, 4);
        lemma_value_of_padded((-b) as nat, 4);
    } else if a >= 0 && b >= 0 {
        lemma_value_of_padded(a as nat, 4);
        lemma_value_of_padded(b as nat, 4);
    } else {
        assert(year_text(a)[0] != year_text(b)[0]);
    }
}

/// The fixed-width tail of a stamp text, read back from its end.
proof fn lemma_stamp_text_parts(s: Stamp)
    requires
        s.wf(),
    ensures
        ({
            let t = stamp_text(s);
            let n = t.len() as int;
            &&& n >= 11
            &&& t.subrange(0, n - 11) == year_text(s.year as int)
            &&& t.subrange(n - 10, n - 8) == padded(s.month as nat, 2)
            &&& t.subrange(n - 7, n - 5) == padded(s.day as nat, 2)
            &&& t.subrange(n - 4, n - 2) == padded(s.hour as nat, 2)
            &&& t.subrange(n - 2, n) == padded(s.minute as nat, 2)
        }),
{
    lemma_two_digits(s.month as nat);
    lemma_two_digits(s.day as nat);
    lemma_two_digits(s.hour as nat);
    lemma_two_digits(s.minute as nat);
    let t = stamp_text(s);
    let n = t.len() as int;
    let y = year_text(s.year as int);
    let rest = dash() + padded(s.month as nat, 2) + dash() + padded(s.day as nat, 2) + dash()
        + padded(s.hour as nat, 2) + padded(s.minute as nat, 2);
    assert(rest.len() == 11);
    assert(t =~= y + rest);
    assert(t.subrange(0, n - 11) =~= y);
    assert(t.subrange(n - 10, n - 8) =~= padded(s.month as nat, 2));
    assert(t.subrange(n - 7, n - 5) =~= padded(s.day as nat, 2));
    assert(t.subrange(n - 4, n - 2) =~= padded(s.hour as nat, 2));
    assert(t.subrange(n - 2, n) =~= padded(s.minute as nat, 2));
}

/// Allocation ids tell sessions apart: two ids are equal only when they come
/// from the same minute and the same random suffix. Uniqueness across
/// sessions therefore rests on the suffix draws alone within one minute.
pub proof fn lemma_allocation_id_injective(s1: Stamp, x1: Seq<u8>, s2: Stamp, x2: Seq<u8>)
    requires
        s1.wf(),
        s2.wf(),
        valid_suffix(x1),
        valid_suffix(x2),
        allocation_text(s1, x1) == allocation_text(s2, x2),
    ensures
        s1 == s2,
        x1 == x2,
{
    let t = allocation_text(s1, x1);
    let n = t.len() as int;
    assert(t.subrange(n - 7, n) =~= x1);
    assert(allocation_text(s2, x2).subrange(n - 7, n) =~= x2);
    assert(t.subrange(0, n - 8) =~= stamp_text(s1));
    assert(allocation_text(s2, x2).subrange(0, n - 8) =~= stamp_text(s2));
    let a = stamp_text(s1);
    let m = a.len();
    lemma_stamp_text_parts(s1);
    lemma_stamp_text_parts(s2);
    lemma_year_text_injective(s1.year as int, s2.year as int);
    lemma_two_digits(s1.month as nat);
    lemma_two_digits(s2.month as nat);
    lemma_two_digits(s1.day as nat);
    lemma_two_digits(s2.day as nat);
    lemma_two_digits(s1.hour as nat);
    lemma_two_digits(s2.hour as nat);
    lemma_two_digits(s1.minute as nat);
    lemma_two_digits(s2.minute as nat);
}

/// The allocation id of `stamp` and `suffix`.
pub fn allocation_id(stamp: &Stamp, suffix: &[u8]) -> (r: Vec<u8>)
    ensures
        r@ == allocation_text(*stamp, suffix@),
{
    let mut r: Vec<u8> = Vec::new();
    if stamp.year < 0 {
        r.push(45u8);
        push_padded(&mut r, (0i64 - stamp.year as i64) as u64, 4);
    } else {
        push_padded(&mut r, stamp.year as u64, 4);
    }
    assert(r@ =~= year_text(stamp.year as int));
    r.push(45u8);
    push_padded(&mut r, stamp.month as u64, 2);
    r.push(45u8);
    push_padded(&mut r, stamp.day as u64, 2);
    r.push(45u8);
    push_padded(&mut r, stamp.hour as u64, 2);
    push_padded(&mut r, stamp.minute as u64, 2);
    assert(r@ =~= stamp_text(*stamp));
    r.push(45u8);
    let ghost head = r@;
    let mut i: usize = 0;
    while i < suffix.len()
        invariant
            i <= suffix@.len(),
            r@ == head + suffix@.take(i as int),
        decreases suffix@.len() - i,
    {
        r.push(suffix[i]);
        i = i + 1;
        assert(r@ =~= head + suffix@.take(i as int));
    }
    assert(suffix@.take(i as int) =~= suffix@);
    assert(r@ =~= allocation_text(*stamp, suffix@));
    r
}

/// A fresh allocation id for the instant `unix_secs`: its UTC minute and
/// seven random letters and digits. `None` when the instant lies outside the
/// calendar range.
pub fn new_allocation_id(unix_secs: i64) -> (r: Option<Vec<u8>>)
    ensures
        r matches Some(id) ==> allocation_at(id@, unix_secs as int),
        0 <= unix_secs <= LAST_TIMESTAMP ==> r is Some,
{
    match utc_stamp(unix_secs) {
        Some(stamp) => {
            let suffix = random_token(SUFFIX_LEN);
            let id = allocation_id(&stamp, &suffix);
            assert(valid_suffix(suffix@));
            assert(allocation_at(id@, unix_secs as int));
            Some(id)
        },
        None => None,
    }
}

/// `"/"`.
pub open spec fn slash() -> Seq<u8> {
    seq![47u8]
}

/// A path that starts at the root.
pub open spec fn is_absolute(p: Seq<u8>) -> bool {
    p.len() > 0 && p[0] == 47
}

/// `name` under `base`: one separator between them, none added after an
/// empty base or one that already ends in a separator.
pub open spec fn join(base: Seq<u8>, name: Seq<u8>) -> Seq<u8> {
    if base.len() == 0 || base.last() == 47 {
        base + name
    } else {
        base + slash() + name
    }
}

/// `"hover"`, the directory that this tool owns under each base directory.
pub open spec fn tool_dir() -> Seq<u8> {
    seq![104u8, 111u8, 118u8, 101u8, 114u8]
}

/// `".cache"`.
pub open spec fn cache_leaf() -> Seq<u8> {
    seq![46u8, 99u8, 97u8, 99u8, 104u8, 101u8]
}

/// `"/tmp"`.
pub open spec fn tmp_root() -> Seq<u8> {
    seq![47u8, 116u8, 109u8, 112u8]
}

/// `"hover-"`.
pub open spec fn tool_prefix() -> Seq<u8> {
    tool_dir() + dash()
}

/// `"layer-"`.
pub open spec fn layer_prefix() -> Seq<u8> {
    seq![108u8, 97u8, 121u8, 101u8, 114u8, 45u8]
}

/// `".work-"`.
pub open spec fn work_prefix() -> Seq<u8> {
    seq![46u8, 119u8, 111u8, 114u8, 107u8, 45u8]
}

/// The base directories as the environment gives them: the home directory,
/// and the cache and runtime roots when they are set.
#[derive(Clone, Debug)]
pub struct BaseDirs {
    pub home: Option<Vec<u8>>,
    pub cache_root: Option<Vec<u8>>,
    pub runtime_root: Option<Vec<u8>>,
}

/// A root that is set and absolute.
pub open spec fn usable(root: Option<Vec<u8>>) -> bool {
    root matches Some(p) && is_absolute(p@)
}

impl BaseDirs {
    /// The home directory is known and absolute.
    pub open spec fn has_home(self) -> bool {
        usable(self.home)
    }

    /// The persistent directory of this tool: under the cache root, or under
    /// `~/.cache` when no usable cache root is set.
    pub open spec fn cache_dir(self) -> Seq<u8> {
        let base = if usable(self.cache_root) {
            self.cache_root.unwrap()@
        } else {
            join(self.home.unwrap()@, cache_leaf())
        };
        join(base, tool_dir())
    }

    /// The per-session scratch directory: under the runtime root, or
    /// `/tmp/hover-<allocation>` when no usable runtime root is set.
    pub open spec fn runtime_dir(self, allocation: Seq<u8>) -> Seq<u8> {
        if usable(self.runtime_root) {
            join(self.runtime_root.unwrap()@, tool_dir())
        } else {
            join(tmp_root(), tool_prefix() + allocation)
        }
    }
}

/// Why a session could not be laid out.
#[derive(Clone, Copy, Debug, PartialEq, Eq, Structural)]
pub enum ConfigError {
    /// The home directory is unknown or not an absolute path.
    NoHome,
    /// A base directory, or the home directory, cannot be created or written.
    Unwritable,
}

/// Everything one session needs to know: paths, allocation and the invoker's
/// real ids, as they were before any namespace was entered.
#[derive(Clone, Debug)]
pub struct SessionConfig {
    /// The directory that is overlaid (the home directory).
    pub target: Vec<u8>,
    /// The per-session scratch directory.
    pub runtime: Vec<u8>,
    /// The persistent directory holding layers and work directories.
    pub cache: Vec<u8>,
    pub allocation: Vec<u8>,
    /// The writable layer of this session.
    pub layer: Vec<u8>,
    /// The overlay's work directory of this session.
    pub work: Vec<u8>,
    pub uid: u32,
    pub gid: u32,
}

/// The layout of a session with `allocation` under `dirs`.
pub open spec fn laid_out(c: SessionConfig, dirs: BaseDirs, allocation: Seq<u8>, uid: u32, gid: u32) -> bool {
    &&& c.target@ == dirs.home.unwrap()@
    &&& c.cache@ == dirs.cache_dir()
    &&& c.runtime@ == dirs.runtime_dir(allocation)
    &&& c.allocation@ == allocation
    &&& c.layer@ == join(dirs.cache_dir(), layer_prefix() + allocation)
    &&& c.work@ == join(dirs.cache_dir(), work_prefix() + allocation)
    &&& c.uid == uid
    &&& c.gid == gid
}

/// `name` under `base`, with one separator between them.
pub fn join_path(base: &[u8], name: &[u8]) -> (r: Vec<u8>)
    ensures
        r@ == join(base@, name@),
{
    let mut r: Vec<u8> = Vec::new();
    push_bytes(&mut r, base);
    let n = base.len();
    if n > 0 && base[n - 1] != 47u8 {
        r.push(47u8);
    }
    push_bytes(&mut r, name);
    r
}

fn is_usable(root: &Option<Vec<u8>>) -> (r: bool)
    ensures
        r == usable(*root),
{
    match root {
        Some(p) => p.len() > 0 && p[0] == 47u8,
        None => false,
    }
}

fn prefixed(prefix: &[u8], rest: &[u8]) -> (r: Vec<u8>)
    ensures
        r@ == prefix@ + rest@,
{
    let mut r: Vec<u8> = Vec::new();
    push_bytes(&mut r, prefix);
    push_bytes(&mut r, rest);
    r
}

impl SessionConfig {
    /// Lays out the session `allocation` of the invoker (`uid`, `gid`) under
    /// `dirs`. Fails when the home directory is unknown or relative. Creating
    /// the directories is left to the caller.
    pub fn build(dirs: &BaseDirs, allocation: &[u8], uid: u32, gid: u32) -> (r: Result<
        SessionConfig,
        ConfigError,
    >)
        ensures
            !dirs.has_home() ==> r == Err::<SessionConfig, ConfigError>(ConfigError::NoHome),
            dirs.has_home() ==> (r matches Ok(c) && laid_out(c, *dirs, allocation@, uid, gid)),
    {
        let home: &Vec<u8> = match &dirs.home {
            Some(h) => {
                if h.len() == 0 || h[0] != 47u8 {
                    return Err(ConfigError::NoHome);
                }
                h
            },
            None => {
                return Err(ConfigError::NoHome);
            },
        };
        let base = if is_usable(&dirs.cache_root) {
            match &dirs.cache_root {
                Some(c) => copy_bytes(c.as_slice()),
                None => Vec::new(),
            }
        } else {
            join_path(home.as_slice(), &[46u8, 99u8, 97u8, 99u8, 104u8, 101u8])
        };
        let tool: [u8; 5] = [104u8, 111u8, 118u8, 101u8, 114u8];
        assert(tool@ =~= tool_dir());
        let cache = join_path(base.as_slice(), &tool);
        let runtime = if is_usable(&dirs.runtime_root) {
            match &dirs.runtime_root {
                Some(rt) => join_path(rt.as_slice(), &tool),
                None => Vec::new(),
            }
        } else {
            let leaf = prefixed(&[104u8, 111u8, 118u8, 101u8, 114u8, 45u8], allocation);
            join_path(&[47u8, 116u8, 109u8, 112u8], leaf.as_slice())
        };
        let layer_leaf = prefixed(&[108u8, 97u8, 121u8, 101u8, 114u8, 45u8], allocation);
        let layer = join_path(cache.as_slice(), layer_leaf.as_slice());
        let work_leaf = prefixed(&[46u8, 119u8, 111u8, 114u8, 107u8, 45u8], allocation);
        let work = join_path(cache.as_slice(), work_leaf.as_slice());
        proof {
            assert(tool_prefix() =~= seq![104u8, 111u8, 118u8, 101u8, 114u8, 45u8]);
        }
        Ok(
            SessionConfig {
                target: copy_bytes(home.as_slice()),
                runtime,
                cache,
                allocation: copy_bytes(allocation),
                layer,
                work,
                uid,
                gid,
            },
        )
    }
}

} // verus!
