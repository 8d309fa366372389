//! Flags of a command line.

use vstd::prelude::*;

use crate::error::with_prefix;
use crate::text::{same_text, texts};

verus! {

/// The value of a flag: the argument behind the first argument that equals the flag.
pub open spec fn flag_text(args: Seq<Seq<char>>, flag: Seq<char>) -> Option<Seq<char>>
    decreases args.len(),
{
    if args.len() == 0 {
        None
    } else if args[0] != flag {
        flag_text(args.drop_first(), flag)
    } else if args.len() == 1 {
        None
    } else {
        Some(args[1])
    }
}

/// Arguments before the first one that equals the flag do not matter.
proof fn lemma_flag_text_behind(args: Seq<Seq<char>>, flag: Seq<char>, n: int)
    requires
        0 <= n <= args.len(),
        forall|i: int| 0 <= i < n ==> args[i] != flag,
    ensures
        flag_text(args, flag) == flag_text(args.skip(n), flag),
    decreases n,
{
    if n > 0 {
        lemma_flag_text_behind(args.drop_first(), flag, n - 1);
        assert(args.drop_first().skip(n - 1) == args.skip(n));
    } else {
        assert(args.skip(0) == args);
    }
}

/// The value of a flag, if the flag is there and an argument follows it.
pub fn flag_value<'a>(args: &'a [String], flag: &str) -> (value: Option<&'a str>)
    ensures
        match flag_text(texts(args@), flag@) {
            Some(text) => value matches Some(value) && value@ == text,
            None => value is None,
        },
{
    let mut i: usize = 0;
    while i < args.len()
        invariant
            i <= args@.len(),
            forall|j: int| 0 <= j < i ==> args@[j]@ != flag@,
        decreases args@.len() - i,
    {
        if same_text(args[i].as_str(), flag) {
            proof {
                lemma_flag_text_behind(texts(args@), flag@, i as int);
            }
            if i < args.len() - 1 {
                return Some(args[i + 1].as_str());
            }
            return None;
        }
        i += 1;
    }
    proof {
        lemma_flag_text_behind(texts(args@), flag@, i as int);
    }
    None
}

/// What is said where a flag is missing.
pub open spec fn missing_flag_text(flag: Seq<char>) -> Seq<char> {
    "missing required flag: "@ + flag
}

/// The value of a flag that must be there.
pub fn required_flag<'a>(args: &'a [String], flag: &str) -> (value: Result<&'a str, String>)
    ensures
        match flag_text(texts(args@), flag@) {
            Some(text) => value matches Ok(value) && value@ == text,
            None => value matches Err(message) && message@ == missing_flag_text(flag@),
        },
{
    match flag_value(args, flag) {
        Some(value) => Ok(value),
        None => Err(with_prefix("missing required flag: ", flag)),
    }
}

/// The value of a flag, or `default` where it has none.
pub open spec fn flag_text_or(
    args: Seq<Seq<char>>,
    flag: Seq<char>,
    default: Seq<char>,
) -> Seq<char> {
    match flag_text(args, flag) {
        Some(text) => text,
        None => default,
    }
}

/// The value of a flag, or `default` where it has none.
pub fn flag_value_or<'a>(args: &'a [String], flag: &str, default: &'a str) -> (value: &'a str)
    ensures
        value@ == flag_text_or(texts(args@), flag@, default@),
{
    match flag_value(args, flag) {
        Some(value) => value,
        None => default,
    }
}

/// What stands before the first argument that equals the flag does not matter, and what its value is
/// stands right behind it.
proof fn lemma_flag_text_is(args: Seq<Seq<char>>, flag: Seq<char>, n: int)
    requires
        0 <= n <= args.len(),
        forall|i: int| 0 <= i < n ==> args[i] != flag,
        n < args.len() ==> args[n] == flag,
    ensures
        n + 1 < args.len() ==> flag_text(args, flag) == Some(args[n + 1]),
        n + 1 >= args.len() ==> flag_text(args, flag) is None,
{
    lemma_flag_text_behind(args, flag, n);
}

/// The value of a flag is the argument right behind the first argument that equals the flag. A flag
/// that is missing or comes last has none.
pub proof fn law_flags_take_the_next_argument(
    args: &[String],
    flag: &str,
    n: int,
    value: Option<&str>,
    required: Result<&str, String>,
    default: &str,
    value_or: &str,
)
    requires
        call_ensures(flag_value, (args, flag), value),
        call_ensures(required_flag, (args, flag), required),
        call_ensures(flag_value_or, (args, flag, default), value_or),
        0 <= n <= args@.len(),
        forall|i: int| 0 <= i < n ==> (#[trigger] args@[i])@ != flag@,
        n < args@.len() ==> args@[n]@ == flag@,
    ensures
        n + 1 < args@.len() ==> {
            &&& value matches Some(value) && value@ == args@[n + 1]@
            &&& required matches Ok(value) && value@ == args@[n + 1]@
            &&& value_or@ == args@[n + 1]@
            &&& flag_text(texts(args@), flag@) == Some(args@[n + 1]@)
        },
        n + 1 >= args@.len() ==> {
            &&& value is None
            &&& required matches Err(message) && message@ == "missing required flag: "@ + flag@
            &&& value_or@ == default@
            &&& flag_text(texts(args@), flag@) is None
        },
{
    let t = texts(args@);
    assert forall|i: int| 0 <= i < n implies t[i] != flag@ by {
        assert(t[i] == args@[i]@);
    }
    lemma_flag_text_is(t, flag@, n);
}

} // verus!
