//! Privilege-escalation detection and rewrite. A command is an escalation
//! invocation when the base name of its first token is the escalation tool.
//! Such an invocation must carry a flag that makes the tool read its secret
//! from its input stream; when none of the accepted flags is present, one is
//! inserted right after the tool's name.
use crate::text::{push_char, str_eq};
use vstd::prelude::*;

verus! {

/// The path with any trailing separators removed.
pub open spec fn strip_trailing_slashes(s: Seq<char>) -> Seq<char>
    decreases s.len(),
{
    if s.len() > 0 && s[s.len() - 1] == '/' {
        strip_trailing_slashes(s.drop_last())
    } else {
        s
    }
}

/// The suffix after the last separator, for a path that does not end in one.
pub open spec fn after_last_slash(s: Seq<char>) -> Seq<char>
    decreases s.len(),
{
    if s.len() == 0 {
        Seq::empty()
    } else if s[s.len() - 1] == '/' {
        Seq::empty()
    } else {
        after_last_slash(s.drop_last()).push(s[s.len() - 1])
    }
}

/// The base name of a path: the last component, with trailing separators
/// ignored.
pub open spec fn base_name_spec(s: Seq<char>) -> Seq<char> {
    after_last_slash(strip_trailing_slashes(s))
}

/// The base name of a path, as a fresh string.
pub fn base_name(s: &str) -> (r: String)
    ensures
        r@ == base_name_spec(s@),
{
    let n = s.unicode_len();
    proof {
        assert(s@.subrange(0, n as int) =~= s@);
    }
    let mut e: usize = n;
    while e > 0 && s.get_char(e - 1) == '/'
        invariant
            0 <= e <= n,
            n == s@.len(),
            strip_trailing_slashes(s@) == strip_trailing_slashes(s@.subrange(0, e as int)),
        decreases e,
    {
        proof {
            let t = s@.subrange(0, e as int);
            assert(t.drop_last() =~= s@.subrange(0, e - 1));
        }
        e -= 1;
    }
    proof {
        assert(strip_trailing_slashes(s@) == s@.subrange(0, e as int));
    }
    let mut b: usize = e;
    while b > 0 && s.get_char(b - 1) != '/'
        invariant
            0 <= b <= e <= n,
            n == s@.len(),
            strip_trailing_slashes(s@) == s@.subrange(0, e as int),
            after_last_slash(s@.subrange(0, e as int)) =~= after_last_slash(
                s@.subrange(0, b as int),
            ) + s@.subrange(b as int, e as int),
        decreases b,
    {
        proof {
            let t = s@.subrange(0, b as int);
            assert(t.drop_last() =~= s@.subrange(0, b - 1));
            assert(after_last_slash(s@.subrange(0, b - 1)) + s@.subrange(b - 1, e as int) =~=
                after_last_slash(s@.subrange(0, b as int)) + s@.subrange(b as int, e as int));
        }
        b -= 1;
    }
    proof {
        if b > 0 {
            assert(s@.subrange(0, b as int)[b - 1] == '/');
        }
        assert(after_last_slash(s@.subrange(0, b as int)) =~= Seq::<char>::empty());
        assert(base_name_spec(s@) =~= s@.subrange(b as int, e as int));
    }
    let mut r = String::new();
    let mut i: usize = b;
    while i < e
        invariant
            b <= i <= e <= n,
            n == s@.len(),
            r@ =~= s@.subrange(b as int, i as int),
        decreases e - i,
    {
        push_char(&mut r, s.get_char(i));
        proof {
            assert(r@ =~= s@.subrange(b as int, i + 1 as int));
        }
        i += 1;
    }
    proof {
        assert(r@ =~= base_name_spec(s@));
    }
    r
}

/// Whether an argument vector is an escalation invocation: its first token's
/// base name is the escalation tool.
pub open spec fn is_escalation(args: Seq<Seq<char>>) -> bool {
    args.len() > 0 && base_name_spec(args[0]) == "sudo"@
}

/// Decides whether a tokenized command is an escalation invocation.
pub fn is_sudo_command(args: &Vec<String>) -> (r: bool)
    ensures
        r == is_escalation(args.deep_view()),
{
    if args.len() == 0 {
        return false;
    }
    let name = base_name(args[0].as_str());
    let r = str_eq(name.as_str(), "sudo");
    proof {
        assert(args.deep_view()[0] == args@[0]@);
    }
    r
}

/// A flag that already makes the escalation tool read its secret from its
/// input stream.
pub open spec fn is_stdin_flag(a: Seq<char>) -> bool {
    a == "-S"@ || a == "--stdin"@ || a == "--askpass"@
}

/// Whether any token of the vector is such a flag.
pub open spec fn has_stdin_flag(args: Seq<Seq<char>>) -> bool {
    exists|i: int| 0 <= i < args.len() && is_stdin_flag(args[i])
}

/// Ensures the argument vector requests the secret on its input stream:
/// leaves a vector that already carries one of the accepted flags unchanged,
/// and otherwise inserts the short flag right after the tool's name.
pub fn ensure_sudo_stdin_flag(args: &mut Vec<String>)
    requires
        old(args)@.len() >= 1,
    ensures
        has_stdin_flag(old(args).deep_view()) ==> final(args)@ == old(args)@,
        !has_stdin_flag(old(args).deep_view()) ==> final(args).deep_view() == old(
            args,
        ).deep_view().insert(1, "-S"@),
        has_stdin_flag(final(args).deep_view()),
{
    let ghost d = args.deep_view();
    let n = args.len();
    let mut found = false;
    let mut i: usize = 0;
    while i < n
        invariant
            0 <= i <= n,
            n == args@.len(),
            d == args.deep_view(),
            found == exists|j: int| 0 <= j < i && is_stdin_flag(d[j]),
        decreases n - i,
    {
        proof {
            assert(d[i as int] == args@[i as int]@);
        }
        if str_eq(args[i].as_str(), "-S") || str_eq(args[i].as_str(), "--stdin") || str_eq(
            args[i].as_str(),
            "--askpass",
        ) {
            found = true;
        }
        i += 1;
    }
    if found {
        return;
    }
    let flag: String = "-S".to_owned();
    if args.len() == 1 {
        args.push(flag);
    } else {
        args.insert(1, flag);
    }
    proof {
        assert forall|j: int| 0 <= j < args.deep_view().len() implies args.deep_view()[j] == d.insert(
            1,
            "-S"@,
        )[j] by {
            assert(args.deep_view()[j] == args@[j]@);
            if j >= 2 {
                assert(args@[j] == old(args)@[j - 1]);
                assert(d[j - 1] == old(args)@[j - 1]@);
            } else if j == 0 {
                assert(args@[0] == old(args)@[0]);
                assert(d[0] == old(args)@[0]@);
            }
        }
        assert(args.deep_view() =~= d.insert(1, "-S"@));
        assert(args.deep_view()[1] == "-S"@);
    }
}

} // verus!
