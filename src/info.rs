//! Turning the facts that the host queries return into display text.

use vstd::prelude::*;
use vstd::utf8::{valid_utf8, decode_utf8};

verus! {

/// The decimal digit for `d < 10`.
pub open spec fn digit_char(d: nat) -> char {
    seq!['0', '1', '2', '3', '4', '5', '6', '7', '8', '9'][d as int]
}

/// The decimal writing of `n`, without leading zeros.
pub open spec fn decimal(n: nat) -> Seq<char>
    decreases n,
{
    if n < 10 {
        seq![digit_char(n)]
    } else {
        decimal(n / 10).push(digit_char(n % 10))
    }
}

/// Relies on `u64`'s `Display` (through `to_string`): plain decimal digits.
#[verifier::external_body]
fn decimal_text(n: u64) -> (r: String)
    ensures
        r@ == decimal(n as nat),
{
    n.to_string()
}

/// What `String::from_utf8_lossy` makes of a byte string.
pub uninterp spec fn lossy_text_of(b: Seq<u8>) -> Seq<char>;

/// Relies on `String::from_utf8_lossy`: well-formed UTF-8 comes back as its
/// characters, other bytes with replacement characters.
#[verifier::external_body]
fn lossy_text(b: &[u8]) -> (r: String)
    ensures
        r@ == lossy_text_of(b@),
        valid_utf8(b@) ==> r@ == decode_utf8(b@),
{
    String::from_utf8_lossy(b).into_owned()
}

/// `s` without its last character (the line ending of a query's output).
pub open spec fn chomp(s: Seq<char>) -> Seq<char> {
    s.subrange(0, s.len() - 1)
}

fn without_last(s: &str) -> (r: &str)
    requires
        s@.len() > 0,
    ensures
        r@ == chomp(s@),
{
    let n = s.unicode_len();
    s.substring_char(0, n - 1)
}

/// The OS line: `OS: <type> <version> (<edition>) <architecture>`, with a
/// stand-in for an unknown edition or architecture.
pub open spec fn os_line(
    os_type: Seq<char>,
    version: Seq<char>,
    edition: Option<Seq<char>>,
    arch: Option<Seq<char>>,
) -> Seq<char> {
    let e = match edition {
        Some(e) => e,
        None => "Unknown Edition"@,
    };
    let a = match arch {
        Some(a) => a,
        None => "Unknown Architecture"@,
    };
    "OS: "@ + os_type + " "@ + version + " ("@ + e + ") "@ + a
}

/// The OS field from what the OS query reported.
pub fn os_text(os_type: &str, version: &str, edition: Option<&str>, arch: Option<&str>) -> (r: String)
    ensures
        r@ == os_line(
            os_type@,
            version@,
            match edition {
                Some(e) => Some(e@),
                None => None,
            },
            match arch {
                Some(a) => Some(a@),
                None => None,
            },
        ),
{
    let e = match edition {
        Some(e) => e,
        None => "Unknown Edition",
    };
    let a = match arch {
        Some(a) => a,
        None => "Unknown Architecture",
    };
    let mut r = String::from_str("OS: ");
    r.append(os_type);
    r.append(" ");
    r.append(version);
    r.append(" (");
    r.append(e);
    r.append(") ");
    r.append(a);
    r
}

/// The kernel line for a release string as `uname -r` prints it: `Kernel: `
/// and the release without its line ending.
pub open spec fn kernel_line(release: Seq<char>) -> Seq<char> {
    if release.len() == 0 {
        Seq::empty()
    } else {
        "Kernel: "@ + chomp(release)
    }
}

/// The kernel field for a release string; empty text for an empty release.
pub fn kernel_from_release(release: &str) -> (r: String)
    ensures
        r@ == kernel_line(release@),
{
    if release.is_empty() {
        return String::new();
    }
    let mut r = String::from_str("Kernel: ");
    r.append(without_last(release));
    r
}

/// The kernel field from the raw output of `uname -r`.
pub fn kernel_text(stdout: &[u8]) -> (r: String)
    ensures
        r@ == kernel_line(lossy_text_of(stdout@)),
        valid_utf8(stdout@) ==> r@ == kernel_line(decode_utf8(stdout@)),
{
    let release = lossy_text(stdout);
    kernel_from_release(release.as_str())
}

/// The host field from the board vendor and name files: `Host: <vendor>
/// <board>`, each without its line ending; empty text where either is empty.
pub fn host_text(vendor: &str, board: &str) -> (r: String)
    ensures
        vendor@.len() == 0 || board@.len() == 0 ==> r@ == Seq::<char>::empty(),
        vendor@.len() > 0 && board@.len() > 0 ==> r@ == "Host: "@ + chomp(vendor@) + " "@ + chomp(
            board@,
        ),
{
    if vendor.is_empty() || board.is_empty() {
        return String::new();
    }
    let mut r = String::from_str("Host: ");
    r.append(without_last(vendor));
    r.append(" ");
    r.append(without_last(board));
    r
}

/// The uptime line for `secs` seconds: `Uptime: <h>hr <m>m <s>s`.
pub open spec fn uptime_line(secs: nat) -> Seq<char> {
    "Uptime: "@ + decimal(secs / 3600) + "hr "@ + decimal((secs / 60) % 60) + "m "@ + decimal(
        secs % 60,
    ) + "s"@
}

/// The uptime field for `secs` whole seconds.
pub fn uptime_text(secs: u64) -> (r: String)
    ensures
        r@ == uptime_line(secs as nat),
{
    let uptime_min = secs / 60;
    let uptime_s_left = secs % 60;
    let uptime_hr = uptime_min / 60;
    let uptime_min_left = uptime_min % 60;
    assert(uptime_hr == secs / 3600) by (nonlinear_arith)
        requires
            uptime_min == secs / 60,
            uptime_hr == uptime_min / 60,
    ;
    let mut r = String::from_str("Uptime: ");
    r.append(decimal_text(uptime_hr).as_str());
    r.append("hr ");
    r.append(decimal_text(uptime_min_left).as_str());
    r.append("m ");
    r.append(decimal_text(uptime_s_left).as_str());
    r.append("s");
    r
}


/// The color names that logo text may hold ("normal" then "bright" black,
/// red, green, yellow, blue, magenta, cyan, white), each with its escape.
pub open spec fn color_pairs() -> Seq<(Seq<char>, Seq<char>)> {
    seq![
        ("NBLK"@, "\x1B[30m"@),
        ("NRED"@, "\x1B[31m"@),
        ("NGRN"@, "\x1B[32m"@),
        ("NYLW"@, "\x1B[33m"@),
        ("NBLU"@, "\x1B[34m"@),
        ("NMAG"@, "\x1B[35m"@),
        ("NCYN"@, "\x1B[36m"@),
        ("NWHT"@, "\x1B[37m"@),
        ("BBLK"@, "\x1B[30m"@),
        ("BRED"@, "\x1B[31m"@),
        ("BGRN"@, "\x1B[32m"@),
        ("BYLW"@, "\x1B[33m"@),
        ("BBLU"@, "\x1B[34m"@),
        ("BMAG"@, "\x1B[35m"@),
        ("BCYN"@, "\x1B[36m"@),
        ("BWHT"@, "\x1B[37m"@),
    ]
}

/// The color names and their escapes, as `color_pairs` lists them.
pub fn color_table() -> (r: Vec<(&'static str, &'static str)>)
    ensures
        r@.map_values(|p: (&str, &str)| (p.0@, p.1@)) == color_pairs(),
{
    let mut r: Vec<(&'static str, &'static str)> = Vec::new();
    r.push(("NBLK", "\x1B[30m"));
    r.push(("NRED", "\x1B[31m"));
    r.push(("NGRN", "\x1B[32m"));
    r.push(("NYLW", "\x1B[33m"));
    r.push(("NBLU", "\x1B[34m"));
    r.push(("NMAG", "\x1B[35m"));
    r.push(("NCYN", "\x1B[36m"));
    r.push(("NWHT", "\x1B[37m"));
    r.push(("BBLK", "\x1B[30m"));
    r.push(("BRED", "\x1B[31m"));
    r.push(("BGRN", "\x1B[32m"));
    r.push(("BYLW", "\x1B[33m"));
    r.push(("BBLU", "\x1B[34m"));
    r.push(("BMAG", "\x1B[35m"));
    r.push(("BCYN", "\x1B[36m"));
    r.push(("BWHT", "\x1B[37m"));
    assert(r@.map_values(|p: (&str, &str)| (p.0@, p.1@)) =~= color_pairs());
    r
}

/// What `str::replace` makes of `s` with `from` replaced by `to`.
pub uninterp spec fn replaced(s: Seq<char>, from: Seq<char>, to: Seq<char>) -> Seq<char>;

/// Relies on `str::replace`: each match of `from` in `s` replaced by `to`.
#[verifier::external_body]
fn replace_all(s: &str, from: &str, to: &str) -> (r: String)
    ensures
        r@ == replaced(s@, from@, to@),
{
    s.replace(from, to)
}

/// `s` after replacing each pair's name by its escape, pair by pair in order.
pub open spec fn apply_colors(s: Seq<char>, pairs: Seq<(Seq<char>, Seq<char>)>) -> Seq<char>
    decreases pairs.len(),
{
    if pairs.len() == 0 {
        s
    } else {
        replaced(apply_colors(s, pairs.drop_last()), pairs.last().0, pairs.last().1)
    }
}

/// A logo with its color names replaced by terminal escapes.
pub fn colorize_logo(raw: &str) -> (r: String)
    ensures
        r@ == apply_colors(raw@, color_pairs()),
{
    let table = color_table();
    let ghost pairs = table@.map_values(|p: (&str, &str)| (p.0@, p.1@));
    let mut logo = String::from_str(raw);
    let mut i: usize = 0;
    while i < table.len()
        invariant
            i <= table@.len(),
            pairs == table@.map_values(|p: (&str, &str)| (p.0@, p.1@)),
            logo@ == apply_colors(raw@, pairs.take(i as int)),
        decreases table@.len() - i,
    {
        let (name, code) = table[i];
        assert(pairs.take(i as int + 1).drop_last() =~= pairs.take(i as int));
        logo = replace_all(logo.as_str(), name, code);
        i += 1;
    }
    assert(pairs.take(i as int) =~= pairs);
    logo
}

} // verus!
