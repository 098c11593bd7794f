//! Running the autopilot: which projects are managed, the daemon's
//! options (which project, how many seconds between ticks, how many
//! ticks), and when the daemon stops.
use vstd::prelude::*;

use crate::text::{chars_of, decimal, digit_char, texts};
use vstd::string::*;

verus! {

/// An option of the daemon that takes a number.
#[derive(Debug, Clone, Copy, PartialEq, Eq, Structural)]
pub enum DaemonFlag {
    /// `--interval-seconds`
    IntervalSeconds,
    /// `--ticks`
    Ticks,
}

/// Why the daemon's arguments were refused. Positions count from the
/// project id at 0.
#[derive(Debug, Clone, Copy, PartialEq, Eq, Structural)]
pub enum DaemonArgError {
    /// The option is the last argument and has no value.
    MissingValue(DaemonFlag),
    /// The value at this position is not a number the option takes.
    InvalidNumber(DaemonFlag, usize),
    /// The argument at this position is no option of the daemon.
    UnknownArg(usize),
    /// The interval is zero seconds.
    ZeroInterval,
}

/// The daemon's options.
#[derive(Debug, Clone, PartialEq, Eq)]
pub struct DaemonOptions {
    pub project_id: String,
    pub interval_seconds: u64,
    pub max_ticks: usize,
}

/// The value of a decimal digit.
pub open spec fn digit_value(c: char) -> nat {
    (c as u32 - '0' as u32) as nat
}

/// Every character is a decimal digit.
pub open spec fn all_digits(s: Seq<char>) -> bool {
    forall|i: int| 0 <= i < s.len() ==> '0' <= #[trigger] s[i] <= '9'
}

/// The number the decimal digits spell.
pub open spec fn digits_value(s: Seq<char>) -> nat
    decreases s.len(),
{
    if s.len() == 0 {
        0
    } else {
        digits_value(s.drop_last()) * 10 + digit_value(s.last())
    }
}

/// The digits of an unsigned number's text: a leading `+` is allowed.
pub open spec fn unsigned_digits(s: Seq<char>) -> Seq<char> {
    if s.len() > 0 && s[0] == '+' {
        s.drop_first()
    } else {
        s
    }
}

/// The unsigned number the text spells, if it spells one no larger than
/// `max`: an optional `+`, then one or more decimal digits.
pub open spec fn parsed_unsigned(s: Seq<char>, max: nat) -> Option<nat> {
    let d = unsigned_digits(s);
    if d.len() > 0 && all_digits(d) && digits_value(d) <= max {
        Some(digits_value(d))
    } else {
        None
    }
}

/// The interval and tick count after reading the options from position
/// `i` on, or why they are refused.
pub open spec fn option_scan(args: Seq<Seq<char>>, i: int, interval: u64, ticks: usize) -> Result<(u64, usize), DaemonArgError>
    decreases args.len() - i,
{
    if i < 0 || i >= args.len() {
        Ok((interval, ticks))
    } else if args[i] == "--interval-seconds"@ {
        if i + 1 >= args.len() {
            Err(DaemonArgError::MissingValue(DaemonFlag::IntervalSeconds))
        } else {
            match parsed_unsigned(args[i + 1], u64::MAX as nat) {
                Some(v) => option_scan(args, i + 2, v as u64, ticks),
                None => Err(DaemonArgError::InvalidNumber(DaemonFlag::IntervalSeconds, (i + 1) as usize)),
            }
        }
    } else if args[i] == "--ticks"@ {
        if i + 1 >= args.len() {
            Err(DaemonArgError::MissingValue(DaemonFlag::Ticks))
        } else {
            match parsed_unsigned(args[i + 1], usize::MAX as nat) {
                Some(v) => option_scan(args, i + 2, interval, v as usize),
                None => Err(DaemonArgError::InvalidNumber(DaemonFlag::Ticks, (i + 1) as usize)),
            }
        }
    } else {
        Err(DaemonArgError::UnknownArg(i as usize))
    }
}

/// The daemon's interval and tick count, or why its arguments are refused:
/// the options follow the project id; the interval defaults to five
/// minutes and must not be zero; no tick limit by default.
pub open spec fn daemon_settings(args: Seq<Seq<char>>) -> Result<(u64, usize), DaemonArgError> {
    match option_scan(args, 1, 300, 0) {
        Ok((interval, ticks)) => if interval == 0 {
            Err(DaemonArgError::ZeroInterval)
        } else {
            Ok((interval, ticks))
        },
        Err(e) => Err(e),
    }
}

/// The project the daemon drives.
pub open spec fn daemon_project(args: Seq<Seq<char>>) -> Seq<char> {
    if args.len() > 0 {
        args[0]
    } else {
        "lightpanda-automation"@
    }
}

proof fn lemma_digit_char_value(d: int)
    requires
        0 <= d < 10,
    ensures
        '0' <= digit_char(d) <= '9',
        digit_value(digit_char(d)) == d,
{
}

/// The decimal text of a number reads back as that number: it is made of
/// digits, spells the number, has no leading zero, and so parses to it
/// under any bound it fits.
pub proof fn lemma_decimal_reads_back(n: nat, max: nat)
    ensures
        all_digits(decimal(n)),
        digits_value(decimal(n)) == n,
        decimal(n).len() >= 1,
        n > 0 ==> decimal(n)[0] != '0',
        n <= max ==> parsed_unsigned(decimal(n), max) == Some(n),
    decreases n,
{
    if n < 10 {
        lemma_digit_char_value(n as int);
        let t = decimal(n);
        assert(t.drop_last() =~= Seq::<char>::empty());
        assert(digits_value(t.drop_last()) == 0);
    } else {
        lemma_decimal_reads_back(n / 10, max);
        lemma_digit_char_value((n % 10) as int);
        let s = decimal(n / 10);
        let t = decimal(n);
        assert(t == s.push(digit_char((n % 10) as int)));
        assert(t.drop_last() =~= s);
        assert(t[0] == s[0]);
        assert forall|i: int| 0 <= i < t.len() implies '0' <= #[trigger] t[i] <= '9' by {
            if i < s.len() {
                assert(t[i] == s[i]);
            }
        }
        assert(digits_value(t) == digits_value(s) * 10 + digit_value(t.last()));
    }
    let t = decimal(n);
    assert('0' <= t[0] <= '9');
    assert(unsigned_digits(t) == t);
}

/// Whether the daemon has done the ticks it was asked for.
pub open spec fn ticks_done(executed: usize, max_ticks: usize) -> bool {
    max_ticks > 0 && executed >= max_ticks
}

/// Whether two texts are equal.
pub fn same_text(a: &str, b: &str) -> (res: bool)
    ensures
        res == (a@ == b@),
{
    let x = chars_of(a);
    let y = chars_of(b);
    if x.len() != y.len() {
        return false;
    }
    let mut i: usize = 0;
    while i < x.len()
        invariant
            x@ == a@,
            y@ == b@,
            x.len() == y.len(),
            i <= x.len(),
            forall|k: int| 0 <= k < i ==> x@[k] == y@[k],
        decreases x.len() - i,
    {
        if x[i] != y[i] {
            return false;
        }
        i = i + 1;
    }
    assert(x@ =~= y@);
    true
}

proof fn lemma_digits_value_monotone(s: Seq<char>, k: int)
    requires
        0 <= k <= s.len(),
    ensures
        digits_value(s.take(k)) <= digits_value(s),
    decreases s.len(),
{
    if k < s.len() {
        assert(s.drop_last().take(k) =~= s.take(k));
        lemma_digits_value_monotone(s.drop_last(), k);
    } else {
        assert(s.take(k) =~= s);
    }
}

/// The unsigned number `s` spells, if it spells one no larger than `max`.
pub fn parse_unsigned(s: &str, max: u64) -> (res: Option<u64>)
    ensures
        res matches Some(v) ==> parsed_unsigned(s@, max as nat) == Some(v as nat),
        res is None ==> parsed_unsigned(s@, max as nat) is None,
{
    let cs = chars_of(s);
    let start: usize = if cs.len() > 0 && cs[0] == '+' {
        1
    } else {
        0
    };
    let ghost d = unsigned_digits(s@);
    assert(d =~= s@.subrange(start as int, s@.len() as int));
    if start >= cs.len() {
        return None;
    }
    let mut i: usize = start;
    while i < cs.len()
        invariant
            cs@ == s@,
            start <= i <= cs.len(),
            d =~= s@.subrange(start as int, s@.len() as int),
            d == unsigned_digits(s@),
            forall|k: int| 0 <= k < i - start ==> '0' <= #[trigger] d[k] <= '9',
        decreases cs.len() - i,
    {
        if cs[i] < '0' || cs[i] > '9' {
            assert(d[i - start] == cs@[i as int]);
            assert(!all_digits(d));
            return None;
        }
        i = i + 1;
    }
    assert(all_digits(d));
    let mut value: u64 = 0;
    let mut j: usize = start;
    while j < cs.len()
        invariant
            cs@ == s@,
            start <= j <= cs.len(),
            d =~= s@.subrange(start as int, s@.len() as int),
            d == unsigned_digits(s@),
            all_digits(d),
            value as nat == digits_value(d.take(j - start)),
            value <= max,
        decreases cs.len() - j,
    {
        let ghost k = (j - start) as int;
        assert(d.take(k + 1).drop_last() =~= d.take(k));
        assert(d.take(k + 1).last() == cs@[j as int]);
        assert('0' <= d[k] <= '9');
        let digit = (cs[j] as u32 - '0' as u32) as u64;
        assert(digits_value(d.take(k + 1)) == value * 10 + digit);
        if digit > max || value > (max - digit) / 10 {
            proof {
                if digit <= max {
                    assert(value * 10 + digit > max) by (nonlinear_arith)
                        requires
                            value > (max - digit) / 10,
                            digit <= max,
                    ;
                }
                lemma_digits_value_monotone(d, k + 1);
            }
            return None;
        }
        proof {
            assert(value * 10 + digit <= max) by (nonlinear_arith)
                requires
                    value <= (max - digit) / 10,
                    digit <= max,
            ;
        }
        value = value * 10 + digit;
        j = j + 1;
    }
    assert(d.take(d.len() as int) =~= d);
    Some(value)
}

/// Reads the daemon's arguments (those after the `daemon` command): the
/// project id, then `--interval-seconds N` and `--ticks M` in any order,
/// a later value replacing an earlier one.
pub fn parse_daemon_args(args: &Vec<String>) -> (res: Result<DaemonOptions, DaemonArgError>)
    ensures
        match daemon_settings(texts(args@)) {
            Ok((interval, ticks)) => res matches Ok(o) && o.project_id@ == daemon_project(
                texts(args@),
            ) && o.interval_seconds == interval && o.max_ticks == ticks,
            Err(e) => res == Err::<DaemonOptions, DaemonArgError>(e),
        },
{
    let ghost all = texts(args@);
    let project_id = if args.len() > 0 {
        args[0].clone()
    } else {
        "lightpanda-automation".to_string()
    };
    let mut interval_seconds: u64 = 300;
    let mut max_ticks: usize = 0;
    let mut i: usize = 1;
    while i < args.len()
        invariant
            all == texts(args@),
            1 <= i,
            option_scan(all, 1, 300, 0) == option_scan(all, i as int, interval_seconds, max_ticks),
        decreases args.len() - i,
    {
        assert(all[i as int] == args@[i as int]@);
        if same_text(args[i].as_str(), "--interval-seconds") {
            if i + 1 >= args.len() {
                return Err(DaemonArgError::MissingValue(DaemonFlag::IntervalSeconds));
            }
            assert(all[i + 1] == args@[i + 1]@);
            match parse_unsigned(args[i + 1].as_str(), u64::MAX) {
                Some(v) => interval_seconds = v,
                None => return Err(DaemonArgError::InvalidNumber(DaemonFlag::IntervalSeconds, i + 1)),
            }
            i = i + 2;
        } else if same_text(args[i].as_str(), "--ticks") {
            if i + 1 >= args.len() {
                return Err(DaemonArgError::MissingValue(DaemonFlag::Ticks));
            }
            assert(all[i + 1] == args@[i + 1]@);
            match parse_unsigned(args[i + 1].as_str(), usize::MAX as u64) {
                Some(v) => max_ticks = v as usize,
                None => return Err(DaemonArgError::InvalidNumber(DaemonFlag::Ticks, i + 1)),
            }
            i = i + 2;
        } else {
            return Err(DaemonArgError::UnknownArg(i));
        }
    }
    if interval_seconds == 0 {
        return Err(DaemonArgError::ZeroInterval);
    }
    Ok(DaemonOptions { project_id, interval_seconds, max_ticks })
}

/// Whether the daemon has done the ticks it was asked for; with no limit
/// (zero) it runs on.
pub fn daemon_finished(executed: usize, max_ticks: usize) -> (res: bool)
    ensures
        res == ticks_done(executed, max_ticks),
{
    max_ticks > 0 && executed >= max_ticks
}

/// The project id a configuration file name stands for: the name without
/// its `.json` extension, where it has that extension and something before
/// it (so `.json` alone is no project).
pub open spec fn config_project(name: Seq<char>) -> Option<Seq<char>> {
    if name.len() >= 6 && name.subrange(name.len() - 5, name.len() as int) == ".json"@ {
        Some(name.take(name.len() - 5))
    } else {
        None
    }
}

/// The project id a configuration file name stands for, if any.
pub fn project_id_of_config(file_name: &str) -> (res: Option<String>)
    ensures
        res matches Some(id) ==> config_project(file_name@) == Some(id@),
        res is None ==> config_project(file_name@) is None,
{
    let cs = chars_of(file_name);
    let n = cs.len();
    if n < 6 {
        return None;
    }
    proof {
        reveal_strlit(".json");
    }
    let tail = file_name.substring_char(n - 5, n);
    if !same_text(tail, ".json") {
        return None;
    }
    Some(file_name.substring_char(0, n - 5).to_string())
}

/// A configuration file named after a project, with the `.json`
/// extension, stands for that project; a name without the extension
/// stands for none.
pub proof fn lemma_config_file_names_project(id: Seq<char>, name: Seq<char>)
    ensures
        id.len() > 0 ==> config_project(id + ".json"@) == Some(id),
        name.len() < 5 || name.subrange(name.len() - 5, name.len() as int) != ".json"@
            ==> config_project(name) is None,
{
    reveal_strlit(".json");
    let f = id + ".json"@;
    assert(f.subrange(f.len() - 5, f.len() as int) =~= ".json"@);
    assert(f.take(f.len() - 5) =~= id);
}

/// A daemon without a tick limit never finishes on its own; one with a
/// limit finishes once it has run that many ticks.
pub proof fn lemma_tick_limit(executed: usize, max_ticks: usize)
    ensures
        max_ticks == 0 ==> !ticks_done(executed, max_ticks),
        max_ticks > 0 ==> (ticks_done(executed, max_ticks) <==> executed >= max_ticks),
{
}

/// Given only the project id, the daemon ticks every five minutes without
/// a tick limit.
pub proof fn lemma_daemon_defaults(project_id: Seq<char>)
    ensures
        daemon_settings(seq![project_id]) == Ok::<(u64, usize), DaemonArgError>((300u64, 0usize)),
        daemon_project(seq![project_id]) == project_id,
{
}

/// `a` comes no later than `b` in the order of `String`'s `Ord`: by
/// character code, a prefix first.
pub open spec fn text_le(a: Seq<char>, b: Seq<char>) -> bool
    decreases a.len(),
{
    if a.len() == 0 {
        true
    } else if b.len() == 0 {
        false
    } else if a[0] != b[0] {
        a[0] < b[0]
    } else {
        text_le(a.drop_first(), b.drop_first())
    }
}

/// The texts are in order.
pub open spec fn texts_sorted(s: Seq<Seq<char>>) -> bool {
    forall|i: int, j: int| 0 <= i < j < s.len() ==> text_le(#[trigger] s[i], #[trigger] s[j])
}

proof fn lemma_text_le_total(a: Seq<char>, b: Seq<char>)
    ensures
        text_le(a, b) || text_le(b, a),
    decreases a.len(),
{
    if a.len() > 0 && b.len() > 0 && a[0] == b[0] {
        lemma_text_le_total(a.drop_first(), b.drop_first());
    }
}

proof fn lemma_text_le_transitive(a: Seq<char>, b: Seq<char>, c: Seq<char>)
    requires
        text_le(a, b),
        text_le(b, c),
    ensures
        text_le(a, c),
    decreases a.len(),
{
    if a.len() > 0 && b.len() > 0 && c.len() > 0 && a[0] == b[0] && b[0] == c[0] {
        lemma_text_le_transitive(a.drop_first(), b.drop_first(), c.drop_first());
    }
}

/// Whether `a` comes no later than `b` (see [`text_le`]).
pub fn text_le_exec(a: &String, b: &String) -> (res: bool)
    ensures
        res == text_le(a@, b@),
{
    let x = chars_of(a.as_str());
    let y = chars_of(b.as_str());
    let mut i: usize = 0;
    assert(a@.skip(0) =~= a@);
    assert(b@.skip(0) =~= b@);
    while i < x.len() && i < y.len()
        invariant
            x@ == a@,
            y@ == b@,
            i <= x.len(),
            i <= y.len(),
            text_le(a@, b@) == text_le(a@.skip(i as int), b@.skip(i as int)),
        decreases x.len() - i,
    {
        assert(a@.skip(i as int)[0] == x@[i as int]);
        assert(b@.skip(i as int)[0] == y@[i as int]);
        if x[i] != y[i] {
            return x[i] < y[i];
        }
        assert(a@.skip(i as int).drop_first() =~= a@.skip(i + 1));
        assert(b@.skip(i as int).drop_first() =~= b@.skip(i + 1));
        i = i + 1;
    }
    if i == x.len() {
        assert(a@.skip(i as int).len() == 0);
        true
    } else {
        assert(a@.skip(i as int).len() > 0 && b@.skip(i as int).len() == 0);
        false
    }
}

/// Sorts the project ids in the order of `String`'s `Ord`; equal ids keep
/// their order.
pub fn sort_project_ids(ids: &mut Vec<String>)
    ensures
        texts_sorted(texts(final(ids)@)),
        texts(final(ids)@).to_multiset() == texts(old(ids)@).to_multiset(),
{
    let ghost input = texts(ids@);
    let mut out: Vec<String> = Vec::new();
    let mut i: usize = 0;
    assert(texts(out@) =~= input.take(0));
    while i < ids.len()
        invariant
            input == texts(ids@),
            i <= ids.len(),
            texts_sorted(texts(out@)),
            texts(out@).to_multiset() == input.take(i as int).to_multiset(),
        decreases ids.len() - i,
    {
        let x = ids[i].clone();
        let ghost old_out = texts(out@);
        let mut p: usize = 0;
        while p < out.len() && text_le_exec(&out[p], &x)
            invariant
                old_out == texts(out@),
                p <= out.len(),
                forall|k: int| 0 <= k < p ==> text_le(#[trigger] old_out[k], x@),
            decreases out.len() - p,
        {
            assert(old_out[p as int] == out@[p as int]@);
            p = p + 1;
        }
        proof {
            if p < out.len() {
                assert(old_out[p as int] == out@[p as int]@);
                assert(!text_le(old_out[p as int], x@));
                lemma_text_le_total(old_out[p as int], x@);
            }
        }
        out.insert(p, x);
        let ghost new_out = texts(out@);
        assert(new_out =~= old_out.insert(p as int, x@));
        assert forall|a: int, b: int| 0 <= a < b < new_out.len() implies text_le(
            #[trigger] new_out[a],
            #[trigger] new_out[b],
        ) by {
            if b < p {
                assert(new_out[a] == old_out[a] && new_out[b] == old_out[b]);
            } else if b == p {
                assert(new_out[a] == old_out[a]);
            } else if a < p {
                assert(new_out[a] == old_out[a] && new_out[b] == old_out[b - 1]);
                assert(text_le(old_out[a], x@));
                lemma_text_le_transitive(old_out[a], x@, old_out[p as int]);
                if b - 1 > p {
                    lemma_text_le_transitive(old_out[a], old_out[p as int], old_out[b - 1]);
                }
            } else if a == p {
                assert(new_out[b] == old_out[b - 1]);
                if b - 1 > p {
                    lemma_text_le_transitive(x@, old_out[p as int], old_out[b - 1]);
                }
            } else {
                assert(new_out[a] == old_out[a - 1] && new_out[b] == old_out[b - 1]);
            }
        }
        proof {
            vstd::seq_lib::to_multiset_insert(old_out, p as int, x@);
            vstd::seq_lib::to_multiset_build(input.take(i as int), x@);
        }
        assert(input.take(i + 1) =~= input.take(i as int).push(input[i as int]));
        assert(input[i as int] == x@);
        i = i + 1;
    }
    assert(input.take(ids.len() as int) =~= input);
    *ids = out;
}

} // verus!
