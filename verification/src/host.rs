use vstd::prelude::*;
use crate::mode::Mode;

verus! {

/// The character of a decimal digit.
pub open spec fn digit_char(d: nat) -> char {
    if d == 0 { '0' }
    else if d == 1 { '1' }
    else if d == 2 { '2' }
    else if d == 3 { '3' }
    else if d == 4 { '4' }
    else if d == 5 { '5' }
    else if d == 6 { '6' }
    else if d == 7 { '7' }
    else if d == 8 { '8' }
    else { '9' }
}

/// The decimal notation of a number, without leading zeros.
pub open spec fn decimal(n: nat) -> Seq<char>
    decreases n,
{
    if n < 10 {
        seq![digit_char(n)]
    } else {
        decimal(n / 10).push(digit_char(n % 10))
    }
}

/// The address of the daemon's socket: a socket in the current directory
/// for a project, the system socket for root, and a socket in the user's
/// runtime directory for everyone else.
pub open spec fn host_address_spec(mode: Mode, uid: u32) -> Seq<char> {
    if mode == Mode::Project {
        "rsvc.socket"@
    } else if uid == 0 {
        "/run/rinit/.socket"@
    } else {
        "/run/user/"@ + decimal(uid as nat) + "/rinit/.socket"@
    }
}

proof fn lemma_decimal_len(n: nat)
    ensures
        decimal(n).len() >= 1,
        n >= 10 ==> decimal(n).len() >= 2,
    decreases n,
{
    if n >= 10 {
        lemma_decimal_len(n / 10);
    }
}

proof fn lemma_decimal_injective(a: nat, b: nat)
    requires
        decimal(a) == decimal(b),
    ensures
        a == b,
    decreases a,
{
    lemma_decimal_len(a);
    lemma_decimal_len(b);
    if a < 10 && b < 10 {
        assert(decimal(a)[0] == digit_char(a));
        assert(decimal(b)[0] == digit_char(b));
    } else if a >= 10 && b >= 10 {
        let da = decimal(a);
        let db = decimal(b);
        assert(da.last() == digit_char(a % 10));
        assert(db.last() == digit_char(b % 10));
        assert(da.drop_last() =~= decimal(a / 10));
        assert(db.drop_last() =~= decimal(b / 10));
        lemma_decimal_injective(a / 10, b / 10);
    } else {
        assert(decimal(a).len() != decimal(b).len());
    }
}

/// Users other than root each get a socket of their own, and none of them
/// shares root's socket.
pub proof fn lemma_users_have_distinct_sockets(mode: Mode, u1: u32, u2: u32)
    requires
        mode != Mode::Project,
        u1 != u2,
    ensures
        host_address_spec(mode, u1) != host_address_spec(mode, u2),
{
    reveal_strlit("/run/rinit/.socket");
    reveal_strlit("/run/user/");
    reveal_strlit("/rinit/.socket");
    let prefix = "/run/user/"@;
    let suffix = "/rinit/.socket"@;
    if u1 == 0 || u2 == 0 {
        let other = if u1 == 0 { u2 } else { u1 };
        let s = prefix + decimal(other as nat) + suffix;
        assert(s[5] == 'u');
        assert("/run/rinit/.socket"@[5] == 'r');
    } else {
        let s1 = prefix + decimal(u1 as nat) + suffix;
        let s2 = prefix + decimal(u2 as nat) + suffix;
        if s1 == s2 {
            let n1: int = decimal(u1 as nat).len() as int;
            let n2: int = decimal(u2 as nat).len() as int;
            assert(prefix.len() == 10 && suffix.len() == 14);
            assert(s1.len() == 24 + n1);
            assert(s2.len() == 24 + n2);
            assert(n1 == n2);
            assert(decimal(u1 as nat) =~= s1.subrange(10, 10 + n1));
            assert(decimal(u2 as nat) =~= s2.subrange(10, 10 + n2));
            lemma_decimal_injective(u1 as nat, u2 as nat);
        }
    }
}

/// Outside a project, the socket address depends on the user alone: root
/// and user mode share one socket for a given user.
pub proof fn lemma_address_same_for_root_and_user(uid: u32)
    ensures
        host_address_spec(Mode::Root, uid) == host_address_spec(Mode::User, uid),
{
}

/// The number that a string of decimal digits stands for, reading each
/// character as its distance from `'0'` in the character set.
pub open spec fn digits_value(s: Seq<char>) -> int
    decreases s.len(),
{
    if s.len() == 0 {
        0
    } else {
        digits_value(s.drop_last()) * 10 + (s.last() as int - '0' as int)
    }
}

/// Every character is one of the ASCII digits `'0'` to `'9'`.
pub open spec fn all_ascii_digits(s: Seq<char>) -> bool {
    forall|i: int| 0 <= i < s.len() ==> '0' as int <= #[trigger] s[i] as int <= '9' as int
}

/// The digit characters are the ASCII characters `'0' + d`.
pub proof fn lemma_digit_char_is_ascii(d: nat)
    requires
        d < 10,
    ensures
        digit_char(d) as int == '0' as int + d,
{
}

/// The decimal notation of a number is made of ASCII digits, has no leading
/// zero (unless the number is zero), and reads back as the number.
pub proof fn lemma_decimal_reads_back(n: nat)
    ensures
        all_ascii_digits(decimal(n)),
        decimal(n).len() >= 1,
        decimal(n)[0] == '0' ==> n == 0,
        digits_value(decimal(n)) == n,
    decreases n,
{
    lemma_digit_char_is_ascii(n % 10);
    if n < 10 {
        assert(decimal(n).drop_last() =~= Seq::<char>::empty());
        assert(digits_value(Seq::<char>::empty()) == 0);
        assert(decimal(n).last() == digit_char(n));
        assert(digits_value(decimal(n)) == digits_value(decimal(n).drop_last()) * 10
            + (decimal(n).last() as int - '0' as int));
    } else {
        lemma_decimal_reads_back(n / 10);
        let d = decimal(n);
        assert(d.drop_last() =~= decimal(n / 10));
        assert(d[0] == decimal(n / 10)[0]);
        assert forall|i: int| 0 <= i < d.len() implies '0' as int <= #[trigger] d[i] as int <= '9' as int by {
            if i < d.len() - 1 {
                assert(d[i] == decimal(n / 10)[i]);
            }
        }
        assert(d.last() == digit_char(n % 10));
        assert(digits_value(d) == digits_value(d.drop_last()) * 10 + (d.last() as int - '0' as int));
        assert(n == (n / 10) * 10 + n % 10);
    }
}

/// For a user other than root, outside a project, the socket lies in the
/// user's runtime directory named by the user id written in base ten:
/// `/run/user/` then the uid's ASCII digits (no leading zero) then
/// `/rinit/.socket`. For root it is `/run/rinit/.socket`, and in a project
/// `rsvc.socket` whoever the user.
pub proof fn lemma_host_address_layout(mode: Mode, uid: u32)
    ensures
        mode == Mode::Project ==> host_address_spec(mode, uid) == "rsvc.socket"@,
        mode != Mode::Project && uid == 0 ==> host_address_spec(mode, uid) == "/run/rinit/.socket"@,
        mode != Mode::Project && uid != 0 ==> exists|digits: Seq<char>|
            #![trigger digits_value(digits)]
            host_address_spec(mode, uid) == "/run/user/"@ + digits + "/rinit/.socket"@
                && all_ascii_digits(digits) && digits.len() >= 1 && digits[0] != '0'
                && digits_value(digits) == uid,
{
    lemma_decimal_reads_back(uid as nat);
    let digits = decimal(uid as nat);
    assert(digits_value(digits) == uid);
}

fn digit_str(d: u32) -> (s: &'static str)
    requires
        d < 10,
    ensures
        s@ == seq![digit_char(d as nat)],
{
    proof {
        reveal_strlit("0");
        reveal_strlit("1");
        reveal_strlit("2");
        reveal_strlit("3");
        reveal_strlit("4");
        reveal_strlit("5");
        reveal_strlit("6");
        reveal_strlit("7");
        reveal_strlit("8");
        reveal_strlit("9");
    }
    if d == 0 {
        "0"
    } else if d == 1 {
        "1"
    } else if d == 2 {
        "2"
    } else if d == 3 {
        "3"
    } else if d == 4 {
        "4"
    } else if d == 5 {
        "5"
    } else if d == 6 {
        "6"
    } else if d == 7 {
        "7"
    } else if d == 8 {
        "8"
    } else {
        "9"
    }
}

/// Appends the decimal notation of `n` to `out`.
fn write_decimal(n: u32, out: &mut String)
    ensures
        final(out)@ == old(out)@ + decimal(n as nat),
    decreases n,
{
    if n >= 10 {
        write_decimal(n / 10, out);
    }
    out.append(digit_str(n % 10));
    proof {
        if n >= 10 {
            assert(old(out)@ + decimal((n / 10) as nat) + seq![digit_char((n % 10) as nat)]
                =~= old(out)@ + decimal(n as nat));
        } else {
            assert(decimal(n as nat) == seq![digit_char(n as nat)]);
        }
    }
}

/// The address of the daemon's socket for `mode`, for the user `uid`.
pub fn host_address(mode: Mode, uid: u32) -> (s: String)
    ensures
        s@ == host_address_spec(mode, uid),
{
    if mode == Mode::Project {
        "rsvc.socket".to_owned()
    } else if uid == 0 {
        "/run/rinit/.socket".to_owned()
    } else {
        let mut s = "/run/user/".to_owned();
        write_decimal(uid, &mut s);
        s.append("/rinit/.socket");
        s
    }
}

/// The real user id of this process, from `nix::unistd::Uid::current`.
/// It depends on the process, so nothing is claimed of it.
#[verifier::external_body]
fn current_uid() -> (uid: u32) {
    nix::unistd::Uid::current().as_raw()
}

/// The address of the daemon's socket for `mode`, for the user that runs
/// this process.
pub fn get_host_address(mode: Mode) -> (s: String)
    ensures
        exists|uid: u32| s@ == host_address_spec(mode, uid),
        mode == Mode::Project ==> s@ == "rsvc.socket"@,
{
    let uid = current_uid();
    host_address(mode, uid)
}

} // verus!
