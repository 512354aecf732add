//! Names and paths the pipeline works with: the timestamp-derived workspace
//! directory, the zero-padded per-disc intermediate files, the drive's
//! content address and the per-track source and destination paths.
use vstd::prelude::*;

verus! {

/// The decimal digit character for `d` (only meaningful for `d < 10`).
pub open spec fn spec_digit_char(d: nat) -> char {
    if d == 0 {
        '0'
    } else if d == 1 {
        '1'
    } else if d == 2 {
        '2'
    } else if d == 3 {
        '3'
    } else if d == 4 {
        '4'
    } else if d == 5 {
        '5'
    } else if d == 6 {
        '6'
    } else if d == 7 {
        '7'
    } else if d == 8 {
        '8'
    } else {
        '9'
    }
}

/// The value of a decimal digit character (inverse of `spec_digit_char`).
pub open spec fn spec_digit_val(c: char) -> nat {
    if c == '0' {
        0
    } else if c == '1' {
        1
    } else if c == '2' {
        2
    } else if c == '3' {
        3
    } else if c == '4' {
        4
    } else if c == '5' {
        5
    } else if c == '6' {
        6
    } else if c == '7' {
        7
    } else if c == '8' {
        8
    } else {
        9
    }
}

/// The usual decimal rendering of `n`, most significant digit first,
/// without leading zeros (`0` renders as "0").
pub open spec fn spec_decimal(n: nat) -> Seq<char>
    decreases n,
{
    if n < 10 {
        seq![spec_digit_char(n)]
    } else {
        spec_decimal(n / 10) + seq![spec_digit_char(n % 10)]
    }
}

/// The number a digit sequence denotes, least significant digit last.
pub open spec fn spec_dec_val(s: Seq<char>) -> nat
    decreases s.len(),
{
    if s.len() == 0 {
        0
    } else {
        spec_dec_val(s.drop_last()) * 10 + spec_digit_val(s.last())
    }
}

/// Reading the decimal rendering back gives the number itself.
pub proof fn lemma_decimal_val(n: nat)
    ensures
        spec_dec_val(spec_decimal(n)) == n,
    decreases n,
{
    if n < 10 {
        let s = spec_decimal(n);
        assert(s.drop_last() =~= Seq::<char>::empty());
        assert(spec_dec_val(Seq::<char>::empty()) == 0);
        assert(s.last() == spec_digit_char(n));
        assert(spec_dec_val(s) == spec_dec_val(s.drop_last()) * 10 + spec_digit_val(s.last()));
        assert(spec_digit_val(spec_digit_char(n)) == n);
    } else {
        lemma_decimal_val(n / 10);
        let s = spec_decimal(n);
        let front = spec_decimal(n / 10);
        assert(s.drop_last() =~= front);
        assert(s.last() == spec_digit_char(n % 10));
        assert(spec_dec_val(s) == spec_dec_val(s.drop_last()) * 10 + spec_digit_val(s.last()));
        assert(spec_dec_val(s.drop_last()) == n / 10);
        assert(spec_digit_val(spec_digit_char((n % 10) as nat)) == n % 10);
        vstd::arithmetic::div_mod::lemma_fundamental_div_mod(n as int, 10);
        assert(n == 10 * (n / 10) + n % 10);
    }
}

/// Decimal rendering is injective: distinct numbers render differently.
pub proof fn lemma_decimal_injective(a: nat, b: nat)
    requires
        a != b,
    ensures
        spec_decimal(a) != spec_decimal(b),
{
    if spec_decimal(a) == spec_decimal(b) {
        lemma_decimal_val(a);
        lemma_decimal_val(b);
    }
}

fn digit_str(d: u64) -> (s: &'static str)
    requires
        d < 10,
    ensures
        s@ == seq![spec_digit_char(d as nat)],
{
    if d == 0 {
        proof {
            reveal_strlit("0");
            assert("0"@ =~= seq![spec_digit_char(0nat)]);
        }
        "0"
    } else if d == 1 {
        proof {
            reveal_strlit("1");
            assert("1"@ =~= seq![spec_digit_char(1nat)]);
        }
        "1"
    } else if d == 2 {
        proof {
            reveal_strlit("2");
            assert("2"@ =~= seq![spec_digit_char(2nat)]);
        }
        "2"
    } else if d == 3 {
        proof {
            reveal_strlit("3");
            assert("3"@ =~= seq![spec_digit_char(3nat)]);
        }
        "3"
    } else if d == 4 {
        proof {
            reveal_strlit("4");
            assert("4"@ =~= seq![spec_digit_char(4nat)]);
        }
        "4"
    } else if d == 5 {
        proof {
            reveal_strlit("5");
            assert("5"@ =~= seq![spec_digit_char(5nat)]);
        }
        "5"
    } else if d == 6 {
        proof {
            reveal_strlit("6");
            assert("6"@ =~= seq![spec_digit_char(6nat)]);
        }
        "6"
    } else if d == 7 {
        proof {
            reveal_strlit("7");
            assert("7"@ =~= seq![spec_digit_char(7nat)]);
        }
        "7"
    } else if d == 8 {
        proof {
            reveal_strlit("8");
            assert("8"@ =~= seq![spec_digit_char(8nat)]);
        }
        "8"
    } else {
        proof {
            reveal_strlit("9");
            assert("9"@ =~= seq![spec_digit_char(9nat)]);
        }
        "9"
    }
}

/// Renders `n` in decimal.
pub fn u64_to_decimal(n: u64) -> (s: String)
    ensures
        s@ == spec_decimal(n as nat),
    decreases n,
{
    if n < 10 {
        String::from_str(digit_str(n))
    } else {
        assert(n / 10 < n && n / 10 >= 1);
        let front = u64_to_decimal(n / 10);
        front.concat(digit_str(n % 10))
    }
}

/// The run's workspace directory: a fixed prefix followed by the run's
/// start time in seconds since the epoch.
pub open spec fn spec_workspace_name(stamp: u64) -> Seq<char> {
    ".tmp"@ + spec_decimal(stamp as nat)
}

pub fn workspace_name(stamp: u64) -> (s: String)
    ensures
        s@ == spec_workspace_name(stamp),
{
    let mut s = String::from_str(".tmp");
    let digits = u64_to_decimal(stamp);
    s.append(digits.as_str());
    s
}

/// Runs started at different seconds get different workspace directories.
pub proof fn lemma_workspace_isolation(a: u64, b: u64)
    requires
        a != b,
    ensures
        spec_workspace_name(a) != spec_workspace_name(b),
{
    reveal_strlit(".tmp");
    let p = ".tmp"@;
    let da = spec_decimal(a as nat);
    let db = spec_decimal(b as nat);
    lemma_decimal_injective(a as nat, b as nat);
    if spec_workspace_name(a) == spec_workspace_name(b) {
        assert((p + da).len() == (p + db).len());
        assert(da.len() == db.len());
        assert forall|i: int| 0 <= i < da.len() implies da[i] == db[i] by {
            assert((p + da)[p.len() + i] == da[i]);
            assert((p + db)[p.len() + i] == db[i]);
        }
        assert(da =~= db);
    }
}

/// `dir`/`name`, the single path separator between them.
pub open spec fn spec_join(dir: Seq<char>, name: Seq<char>) -> Seq<char> {
    dir + "/"@ + name
}

pub fn join_path(dir: &str, name: &str) -> (r: String)
    ensures
        r@ == spec_join(dir@, name@),
{
    let mut s = String::from_str(dir);
    s.append("/");
    s.append(name);
    s
}

/// The mount layer's content address for the drive called `name`.
pub open spec fn spec_drive_address(name: Seq<char>) -> Seq<char> {
    "cdda://"@ + name + "/"@
}

pub fn drive_address(name: &str) -> (r: String)
    ensures
        r@ == spec_drive_address(name@),
{
    let mut s = String::from_str("cdda://");
    s.append(name);
    s.append("/");
    s
}

/// What `str::escape_debug` renders a track name as.
pub uninterp spec fn escaped_of(s: Seq<char>) -> Seq<char>;

/// Relies on str::escape_debug: the escaped text depends on the characters
/// alone, and an empty input stays empty.
#[verifier::external_body]
fn escape_track(s: &str) -> (r: String)
    ensures
        r@ == escaped_of(s@),
        s@.len() == 0 ==> r@.len() == 0,
{
    format!("{}", s.escape_debug())
}

/// Where the mounted disc exposes the raw audio of `track`: the gvfs
/// mount point for the drive, then the track's escaped name.
pub open spec fn spec_track_origin(drive: Seq<char>, track: Seq<char>) -> Seq<char> {
    "/run/user/1000/gvfs/cdda:host="@ + drive + "/"@ + escaped_of(track)
}

pub fn track_origin(drive: &str, track: &str) -> (r: String)
    ensures
        r@ == spec_track_origin(drive@, track@),
{
    let mut s = String::from_str("/run/user/1000/gvfs/cdda:host=");
    s.append(drive);
    s.append("/");
    let escaped = escape_track(track);
    s.append(escaped.as_str());
    s
}

/// `n` rendered in decimal, left-padded with zeros to at least three digits.
pub open spec fn spec_pad3(n: nat) -> Seq<char> {
    if n < 10 {
        seq!['0', '0'] + spec_decimal(n)
    } else if n < 100 {
        seq!['0'] + spec_decimal(n)
    } else {
        spec_decimal(n)
    }
}

/// The name of the per-disc combined intermediate for disc index `i`.
pub open spec fn spec_disc_file_name(i: nat) -> Seq<char> {
    "tmp"@ + spec_pad3(i) + ".wav"@
}

pub fn disc_file_name(i: u16) -> (r: String)
    ensures
        r@ == spec_disc_file_name(i as nat),
{
    let digits = u64_to_decimal(i as u64);
    let mut s = String::from_str("tmp");
    if i < 10 {
        s.append("00");
        proof {
            reveal_strlit("00");
            assert("00"@ =~= seq!['0', '0']);
        }
    } else if i < 100 {
        s.append("0");
        proof {
            reveal_strlit("0");
            assert("0"@ =~= seq!['0']);
        }
    }
    s.append(digits.as_str());
    s.append(".wav");
    proof {
        assert(s@ =~= spec_disc_file_name(i as nat));
    }
    s
}

/// The full paths of one disc's copied raw tracks, in enumeration order.
pub fn disc_file_list(folder: &str, tracks: &Vec<String>) -> (r: Vec<String>)
    ensures
        r@.len() == tracks@.len(),
        forall|i: int| 0 <= i < tracks@.len() ==> r@[i]@ == spec_join(folder@, tracks@[i]@),
{
    let mut r: Vec<String> = Vec::new();
    let n = tracks.len();
    let mut j: usize = 0;
    while j < n
        invariant
            j <= n,
            n == tracks@.len(),
            r@.len() == j,
            forall|i: int| 0 <= i < j ==> r@[i]@ == spec_join(folder@, tracks@[i]@),
        decreases n - j,
    {
        let p = join_path(folder, tracks[j].as_str());
        r.push(p);
        j = j + 1;
    }
    r
}

/// The full paths of the per-disc intermediates, disc index ascending.
pub fn final_file_list(folder: &str, num_disks: u16) -> (r: Vec<String>)
    ensures
        r@.len() == num_disks as int,
        forall|i: int|
            0 <= i < num_disks as int ==> r@[i]@ == spec_join(
                folder@,
                spec_disc_file_name(i as nat),
            ),
{
    let mut r: Vec<String> = Vec::new();
    let mut j: u16 = 0;
    while j < num_disks
        invariant
            j <= num_disks,
            r@.len() == j as int,
            forall|i: int|
                0 <= i < j as int ==> r@[i]@ == spec_join(folder@, spec_disc_file_name(i as nat)),
        decreases num_disks - j,
    {
        let name = disc_file_name(j);
        let p = join_path(folder, name.as_str());
        r.push(p);
        j = j + 1;
    }
    r
}

} // verus!
