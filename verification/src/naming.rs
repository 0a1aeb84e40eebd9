use vstd::prelude::*;

use crate::digits::{
    all_digits, digit_val, digits_value, is_digit, lemma_digit_run_unique, lemma_u64_string_digits,
    lemma_u64_string_value, spec_u64_string, u64_to_string,
};
use crate::store::{Interaction, Session};

verus! {

/// Characters the timestamp part of a file name can contain.
pub open spec fn is_ts_char(c: char) -> bool {
    is_digit(c) || c == '-' || c == '+'
}

pub open spec fn ts_ok(ts: Seq<char>) -> bool {
    ts.len() >= 1 && forall|i: int| 0 <= i < ts.len() ==> is_ts_char(#[trigger] ts[i])
}

/// The `s<sid>i<iid>-` prefix that binds an artifact file to its row.
pub open spec fn artifact_prefix(sid: nat, iid: nat) -> Seq<char> {
    seq!['s'] + spec_u64_string(sid) + seq!['i'] + spec_u64_string(iid) + seq!['-']
}

/// A full artifact file name: prefix, data type, timestamp and extension.
pub open spec fn spec_data_file_name(
    sid: nat,
    iid: nat,
    data_type: Seq<char>,
    ts: Seq<char>,
    file_type: Seq<char>,
) -> Seq<char> {
    artifact_prefix(sid, iid) + data_type + seq!['-'] + ts + seq!['.'] + file_type
}

/// Relies on chrono's `Utc::now` and `DateTime::format` with a pattern of
/// numeric fields separated by dashes: every rendered character is a digit, a
/// dash, or a sign, and at least one character is rendered.
#[verifier::external_body]
fn now_timestamp() -> (r: String)
    ensures
        ts_ok(r@),
{
    chrono::Utc::now().format("%Y-%m-%d-%H-%M-%S-%f").to_string()
}

/// Build `s<sid>i<iid>-<data_type>-<ts>.<file_type>` for a given timestamp.
pub fn data_file_name_with(
    session: &Session,
    interaction: &Interaction,
    data_type: &str,
    file_type: &str,
    ts: &str,
) -> (r: String)
    ensures
        r@ == spec_data_file_name(
            session.id as nat,
            interaction.id as nat,
            data_type@,
            ts@,
            file_type@,
        ),
{
    proof {
        reveal_strlit("s");
        reveal_strlit("i");
        reveal_strlit("-");
        reveal_strlit(".");
    }
    let mut r = String::from_str("s");
    r.append(u64_to_string(session.id as u64).as_str());
    r.append("i");
    r.append(u64_to_string(interaction.id as u64).as_str());
    r.append("-");
    r.append(data_type);
    r.append("-");
    r.append(ts);
    r.append(".");
    r.append(file_type);
    proof {
        assert(r@ =~= spec_data_file_name(
            session.id as nat,
            interaction.id as nat,
            data_type@,
            ts@,
            file_type@,
        ));
    }
    r
}

/// Build an artifact file name stamped with the current wall-clock time.
pub fn data_file_name(
    session: &Session,
    interaction: &Interaction,
    data_type: &str,
    file_type: &str,
) -> (r: String)
    ensures
        exists|ts: Seq<char>|
            ts_ok(ts) && r@ == spec_data_file_name(
                session.id as nat,
                interaction.id as nat,
                data_type@,
                ts,
                file_type@,
            ),
{
    let ts = now_timestamp();
    let r = data_file_name_with(session, interaction, data_type, file_type, ts.as_str());
    proof {
        let w = ts@;
        assert(ts_ok(w) && r@ == spec_data_file_name(
            session.id as nat,
            interaction.id as nat,
            data_type@,
            w,
            file_type@,
        ));
    }
    r
}

/// The name for a query or response audio file of an interaction.
pub fn audio_file_name(session: &Session, interaction: &Interaction, prefix: &str) -> (r: String)
    ensures
        exists|ts: Seq<char>|
            ts_ok(ts) && r@ == spec_data_file_name(
                session.id as nat,
                interaction.id as nat,
                prefix@ + "-audio"@,
                ts,
                "opus"@,
            ),
{
    let mut data_type = String::from_str(prefix);
    data_type.append("-audio");
    data_file_name(session, interaction, data_type.as_str(), "opus")
}

/// The name for the packet-capture file of an interaction.
pub fn capture_file_name(session: &Session, interaction: &Interaction) -> (r: String)
    ensures
        exists|ts: Seq<char>|
            ts_ok(ts) && r@ == spec_data_file_name(
                session.id as nat,
                interaction.id as nat,
                "capture"@,
                ts,
                "pcap"@,
            ),
{
    data_file_name(session, interaction, "capture", "pcap")
}

/// What a successful parse of an artifact file name means: the name starts
/// with `s`, a run of digits denoting `sid`, an `i`, a run of digits denoting
/// `iid`, and a dash.
pub open spec fn parsed_prefix(name: Seq<char>, sid: u64, iid: u64) -> bool {
    exists|d1: Seq<char>, d2: Seq<char>, rest: Seq<char>|
        {
            &&& name == seq!['s'] + d1 + seq!['i'] + d2 + seq!['-'] + rest
            &&& all_digits(d1)
            &&& d1.len() >= 1
            &&& all_digits(d2)
            &&& d2.len() >= 1
            &&& digits_value(d1) == sid
            &&& digits_value(d2) == iid
        }
}

/// The structure a parsed name must have, unpacked: with digits running from
/// position 1 up to a non-digit at position k, the first run is exactly
/// positions 1 to k, ends in the `i` separator at k, and denotes the session
/// id.
proof fn lemma_first_run_exact(name: Seq<char>, sid: u64, iid: u64, k: int)
    requires
        parsed_prefix(name, sid, iid),
        1 <= k <= name.len(),
        all_digits(name.subrange(1, k)),
        k == name.len() || !is_digit(name[k]),
    ensures
        2 <= k < name.len(),
        name[k] == 'i',
        digits_value(name.subrange(1, k)) == sid,
{
    let (d1, d2, rest) = choose|d1: Seq<char>, d2: Seq<char>, rest: Seq<char>|
        {
            &&& name == seq!['s'] + d1 + seq!['i'] + d2 + seq!['-'] + rest
            &&& all_digits(d1)
            &&& d1.len() >= 1
            &&& all_digits(d2)
            &&& d2.len() >= 1
            &&& digits_value(d1) == sid
            &&& digits_value(d2) == iid
        };
    let n1 = d1.len() as int;
    assert(name.len() == 3 + n1 + d2.len() + rest.len());
    assert(name[1 + n1] == 'i');
    if n1 < k - 1 {
        assert(name.subrange(1, k)[n1] == name[1 + n1]);
        assert(is_digit(name[1 + n1]));
        assert(false);
    }
    if n1 > k - 1 {
        assert(1 + n1 < name.len());
        assert(k < name.len());
        assert(name[k] == d1[k - 1]);
        assert(is_digit(d1[k - 1]));
        assert(false);
    }
    assert(n1 == k - 1);
    assert(d1 =~= name.subrange(1, k));
}

/// With digits running from position 1 up to (not including) position m, the
/// session id of any parse is at least what those digits denote.
proof fn lemma_first_run_bound(name: Seq<char>, sid: u64, iid: u64, m: int)
    requires
        parsed_prefix(name, sid, iid),
        1 <= m <= name.len(),
        all_digits(name.subrange(1, m)),
    ensures
        sid >= digits_value(name.subrange(1, m)),
{
    let (d1, d2, rest) = choose|d1: Seq<char>, d2: Seq<char>, rest: Seq<char>|
        {
            &&& name == seq!['s'] + d1 + seq!['i'] + d2 + seq!['-'] + rest
            &&& all_digits(d1)
            &&& d1.len() >= 1
            &&& all_digits(d2)
            &&& d2.len() >= 1
            &&& digits_value(d1) == sid
            &&& digits_value(d2) == iid
        };
    let n1 = d1.len() as int;
    assert(name[1 + n1] == 'i');
    if n1 < m - 1 {
        assert(name.subrange(1, m)[n1] == name[1 + n1]);
        assert(is_digit(name[1 + n1]));
        assert(false);
    }
    assert(d1.take(m - 1) =~= name.subrange(1, m));
    crate::digits::lemma_digits_value_take_le(d1, m - 1);
}

/// The mirror of `lemma_first_run_exact` for the second digit run: with the
/// `i` separator at `split` and digits up to a non-digit at position j, the
/// second run is exactly positions split + 1 to j, ends in the dash at j, and
/// denotes the interaction id.
proof fn lemma_second_run_exact(name: Seq<char>, sid: u64, iid: u64, split: int, j: int)
    requires
        parsed_prefix(name, sid, iid),
        2 <= split < name.len(),
        all_digits(name.subrange(1, split)),
        !is_digit(name[split]),
        split + 1 <= j <= name.len(),
        all_digits(name.subrange(split + 1, j)),
        j == name.len() || !is_digit(name[j]),
    ensures
        split + 2 <= j < name.len(),
        name[j] == '-',
        digits_value(name.subrange(split + 1, j)) == iid,
{
    let (d1, d2, rest) = choose|d1: Seq<char>, d2: Seq<char>, rest: Seq<char>|
        {
            &&& name == seq!['s'] + d1 + seq!['i'] + d2 + seq!['-'] + rest
            &&& all_digits(d1)
            &&& d1.len() >= 1
            &&& all_digits(d2)
            &&& d2.len() >= 1
            &&& digits_value(d1) == sid
            &&& digits_value(d2) == iid
        };
    let n1 = d1.len() as int;
    let n2 = d2.len() as int;
    assert(name[1 + n1] == 'i');
    if n1 < split - 1 {
        assert(name.subrange(1, split)[n1] == name[1 + n1]);
        assert(is_digit(name[1 + n1]));
        assert(false);
    }
    if n1 > split - 1 {
        assert(name[split] == d1[split - 1]);
        assert(is_digit(d1[split - 1]));
        assert(false);
    }
    assert(n1 == split - 1);
    assert(name[split + 1 + n2] == '-');
    if n2 < j - split - 1 {
        assert(name.subrange(split + 1, j)[n2] == name[split + 1 + n2]);
        assert(is_digit(name[split + 1 + n2]));
        assert(false);
    }
    if n2 > j - split - 1 {
        assert(split + 1 + n2 < name.len());
        assert(j < name.len());
        assert(name[j] == d2[j - split - 1]);
        assert(is_digit(d2[j - split - 1]));
        assert(false);
    }
    assert(n2 == j - split - 1);
    assert(d2 =~= name.subrange(split + 1, j));
}

/// The mirror of `lemma_first_run_bound` for the second digit run.
proof fn lemma_second_run_bound(name: Seq<char>, sid: u64, iid: u64, split: int, m: int)
    requires
        parsed_prefix(name, sid, iid),
        2 <= split < name.len(),
        all_digits(name.subrange(1, split)),
        !is_digit(name[split]),
        split + 1 <= m <= name.len(),
        all_digits(name.subrange(split + 1, m)),
    ensures
        iid >= digits_value(name.subrange(split + 1, m)),
{
    let (d1, d2, rest) = choose|d1: Seq<char>, d2: Seq<char>, rest: Seq<char>|
        {
            &&& name == seq!['s'] + d1 + seq!['i'] + d2 + seq!['-'] + rest
            &&& all_digits(d1)
            &&& d1.len() >= 1
            &&& all_digits(d2)
            &&& d2.len() >= 1
            &&& digits_value(d1) == sid
            &&& digits_value(d2) == iid
        };
    let n1 = d1.len() as int;
    let n2 = d2.len() as int;
    assert(name[1 + n1] == 'i');
    if n1 < split - 1 {
        assert(name.subrange(1, split)[n1] == name[1 + n1]);
        assert(is_digit(name[1 + n1]));
        assert(false);
    }
    if n1 > split - 1 {
        assert(name[split] == d1[split - 1]);
        assert(is_digit(d1[split - 1]));
        assert(false);
    }
    assert(n1 == split - 1);
    assert(name[split + 1 + n2] == '-');
    if n2 < m - split - 1 {
        assert(name.subrange(split + 1, m)[n2] == name[split + 1 + n2]);
        assert(is_digit(name[split + 1 + n2]));
        assert(false);
    }
    assert(d2.take(m - split - 1) =~= name.subrange(split + 1, m));
    crate::digits::lemma_digits_value_take_le(d2, m - split - 1);
}

/// Whether the character at a position is a decimal digit.
fn digit_at(s: &str, i: usize) -> (r: bool)
    requires
        i < s@.len(),
    ensures
        r == is_digit(s@[i as int]),
{
    let c = s.get_char(i);
    let u = c as u32;
    48 <= u && u <= 57
}

/// Read the `s<sid>i<iid>-` prefix back out of an artifact file name. A name
/// is accepted exactly when some pair of ids fits it.
pub fn parse_artifact_name(name: &str) -> (r: Option<(u64, u64)>)
    ensures
        match r {
            Some(p) => parsed_prefix(name@, p.0, p.1),
            None => forall|sid: u64, iid: u64| !parsed_prefix(name@, sid, iid),
        },
{
    let len = name.unicode_len();
    if len == 0 {
        proof {
            assert forall|sid: u64, iid: u64| !parsed_prefix(name@, sid, iid) by {
                if parsed_prefix(name@, sid, iid) {
                    let (d1, d2, rest) = choose|d1: Seq<char>, d2: Seq<char>, rest: Seq<char>|
                        {
                            &&& name@ == seq!['s'] + d1 + seq!['i'] + d2 + seq!['-'] + rest
                            &&& all_digits(d1)
                            &&& d1.len() >= 1
                            &&& all_digits(d2)
                            &&& d2.len() >= 1
                            &&& digits_value(d1) == sid
                            &&& digits_value(d2) == iid
                        };
                    assert(name@.len() >= 5);
                }
            }
        }
        return None;
    }
    if name.get_char(0) != 's' {
        proof {
            assert forall|sid: u64, iid: u64| !parsed_prefix(name@, sid, iid) by {
                if parsed_prefix(name@, sid, iid) {
                    let (d1, d2, rest) = choose|d1: Seq<char>, d2: Seq<char>, rest: Seq<char>|
                        {
                            &&& name@ == seq!['s'] + d1 + seq!['i'] + d2 + seq!['-'] + rest
                            &&& all_digits(d1)
                            &&& d1.len() >= 1
                            &&& all_digits(d2)
                            &&& d2.len() >= 1
                            &&& digits_value(d1) == sid
                            &&& digits_value(d2) == iid
                        };
                    assert(name@[0] == 's');
                }
            }
        }
        return None;
    }
    let mut i: usize = 1;
    let mut sid: u64 = 0;
    while i < len && digit_at(name, i)
        invariant
            1 <= i <= len,
            len == name@.len(),
            all_digits(name@.subrange(1, i as int)),
            digits_value(name@.subrange(1, i as int)) == sid,
        decreases len - i,
    {
        let c = name.get_char(i);
        let u = c as u32;
        let d = (u - 48) as u64;
        let next = match sid.checked_mul(10) {
            Some(x) => match x.checked_add(d) {
                Some(y) => Some(y),
                None => None,
            },
            None => None,
        };
        proof {
            let s1 = name@.subrange(1, i as int + 1);
            assert(s1.drop_last() =~= name@.subrange(1, i as int));
            assert(s1.last() == name@[i as int]);
            assert(is_digit(name@[i as int]));
            assert(digit_val(name@[i as int]) == d);
        }
        let next = match next {
            Some(y) => y,
            None => {
                proof {
                    let s1 = name@.subrange(1, i as int + 1);
                    assert(digits_value(s1) == sid * 10 + d);
                    assert(digits_value(s1) > u64::MAX);
                    assert forall|a: u64, b: u64| !parsed_prefix(name@, a, b) by {
                        if parsed_prefix(name@, a, b) {
                            lemma_first_run_bound(name@, a, b, i as int + 1);
                        }
                    }
                }
                return None;
            },
        };
        sid = next;
        i = i + 1;
    }
    if i == 1 || i >= len || name.get_char(i) != 'i' {
        proof {
            assert forall|a: u64, b: u64| !parsed_prefix(name@, a, b) by {
                if parsed_prefix(name@, a, b) {
                    lemma_first_run_exact(name@, a, b, i as int);
                }
            }
        }
        return None;
    }
    let split: usize = i;
    let mut j: usize = split + 1;
    let mut iid: u64 = 0;
    while j < len && digit_at(name, j)
        invariant
            split + 1 <= j <= len,
            len == name@.len(),
            2 <= split < len,
            all_digits(name@.subrange(1, split as int)),
            !is_digit(name@[split as int]),
            name@[split as int] == 'i',
            name@[0] == 's',
            all_digits(name@.subrange(split as int + 1, j as int)),
            digits_value(name@.subrange(split as int + 1, j as int)) == iid,
        decreases len - j,
    {
        let c = name.get_char(j);
        let u = c as u32;
        let d = (u - 48) as u64;
        let next = match iid.checked_mul(10) {
            Some(x) => match x.checked_add(d) {
                Some(y) => Some(y),
                None => None,
            },
            None => None,
        };
        proof {
            let s1 = name@.subrange(split as int + 1, j as int + 1);
            assert(s1.drop_last() =~= name@.subrange(split as int + 1, j as int));
            assert(s1.last() == name@[j as int]);
            assert(is_digit(name@[j as int]));
            assert(digit_val(name@[j as int]) == d);
        }
        let next = match next {
            Some(y) => y,
            None => {
                proof {
                    let s1 = name@.subrange(split as int + 1, j as int + 1);
                    assert(digits_value(s1) == iid * 10 + d);
                    assert(digits_value(s1) > u64::MAX);
                    assert forall|a: u64, b: u64| !parsed_prefix(name@, a, b) by {
                        if parsed_prefix(name@, a, b) {
                            lemma_second_run_bound(name@, a, b, split as int, j as int + 1);
                        }
                    }
                }
                return None;
            },
        };
        iid = next;
        j = j + 1;
    }
    if j == split + 1 || j >= len || name.get_char(j) != '-' {
        proof {
            assert forall|a: u64, b: u64| !parsed_prefix(name@, a, b) by {
                if parsed_prefix(name@, a, b) {
                    lemma_second_run_exact(name@, a, b, split as int, j as int);
                }
            }
        }
        return None;
    }
    proof {
        let d1 = name@.subrange(1, split as int);
        let d2 = name@.subrange(split as int + 1, j as int);
        let rest = name@.subrange(j as int + 1, len as int);
        assert(name@ =~= seq!['s'] + d1 + seq!['i'] + d2 + seq!['-'] + rest);
        assert(parsed_prefix(name@, sid, iid));
    }
    Some((sid, iid))
}

/// The artifact prefix binds a file name to exactly one interaction row: two
/// artifact names that agree as strings were made for the same row, whatever
/// their data types, timestamps and extensions.
pub proof fn lemma_artifact_name_identifies(
    sid1: nat,
    iid1: nat,
    dt1: Seq<char>,
    ts1: Seq<char>,
    ft1: Seq<char>,
    sid2: nat,
    iid2: nat,
    dt2: Seq<char>,
    ts2: Seq<char>,
    ft2: Seq<char>,
)
    requires
        spec_data_file_name(sid1, iid1, dt1, ts1, ft1) == spec_data_file_name(
            sid2,
            iid2,
            dt2,
            ts2,
            ft2,
        ),
    ensures
        sid1 == sid2,
        iid1 == iid2,
{
    let n1 = spec_data_file_name(sid1, iid1, dt1, ts1, ft1);
    let n2 = spec_data_file_name(sid2, iid2, dt2, ts2, ft2);
    lemma_u64_string_digits(sid1);
    lemma_u64_string_digits(sid2);
    lemma_u64_string_digits(iid1);
    lemma_u64_string_digits(iid2);
    let r1 = spec_u64_string(iid1) + seq!['-'] + dt1 + seq!['-'] + ts1 + seq!['.'] + ft1;
    let r2 = spec_u64_string(iid2) + seq!['-'] + dt2 + seq!['-'] + ts2 + seq!['.'] + ft2;
    let t1 = spec_u64_string(sid1) + seq!['i'] + r1;
    let t2 = spec_u64_string(sid2) + seq!['i'] + r2;
    assert(t1 =~= n1.subrange(1, n1.len() as int));
    assert(t2 =~= n2.subrange(1, n2.len() as int));
    lemma_digit_run_unique(spec_u64_string(sid1), 'i', r1, spec_u64_string(sid2), 'i', r2);
    lemma_u64_string_value(sid1);
    lemma_u64_string_value(sid2);
    let q1 = dt1 + seq!['-'] + ts1 + seq!['.'] + ft1;
    let q2 = dt2 + seq!['-'] + ts2 + seq!['.'] + ft2;
    assert(spec_u64_string(iid1) + seq!['-'] + q1 =~= r1);
    assert(spec_u64_string(iid2) + seq!['-'] + q2 =~= r2);
    lemma_digit_run_unique(spec_u64_string(iid1), '-', q1, spec_u64_string(iid2), '-', q2);
    lemma_u64_string_value(iid1);
    lemma_u64_string_value(iid2);
}

} // verus!
