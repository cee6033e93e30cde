//! The command line of the server.

use vstd::prelude::*;

use crate::text::{chars_of, has_prefix, occurs_at_exec, str_eq, string_of_range};

verus! {

/// What the command line sets.
#[derive(Debug)]
pub struct Args {
    pub default_model: Option<String>,
}

/// Opens the message for an option that lacks its value.
pub const MISSING_VALUE: &'static str = "error: option '";

/// Closes the message for an option that lacks its value.
pub const MISSING_VALUE_END: &'static str = "' requires an argument";

/// Opens the message for an argument that is not an option.
pub const UNKNOWN_ARGUMENT: &'static str = "error: unknown argument '";

/// Closes the message for an argument that is not an option.
pub const UNKNOWN_ARGUMENT_END: &'static str = "'\n\n\
     Usage: gemini-multimodal-mcp [OPTIONS]\n\n\
     For more information, try '--help'.";

/// What the arguments from index `i` on make of the command line, the
/// default model being `model` so far: `Ok(None)` when help is asked for,
/// `Ok(Some(m))` with the default model `m`, or the error message.
pub open spec fn parse_from(args: Seq<Seq<char>>, i: int, model: Option<Seq<char>>) -> Result<
    Option<Option<Seq<char>>>,
    Seq<char>,
>
    decreases args.len() - i,
{
    if i < 0 || i >= args.len() {
        Ok(Some(model))
    } else {
        let a = args[i];
        if a == "-h"@ || a == "--help"@ {
            Ok(None)
        } else if a == "-m"@ || a == "--model"@ {
            if i + 1 < args.len() {
                parse_from(args, i + 2, Some(args[i + 1]))
            } else {
                Err(MISSING_VALUE@ + a + MISSING_VALUE_END@)
            }
        } else if has_prefix(a, "--model="@) {
            parse_from(args, i + 1, Some(a.skip("--model="@.len() as int)))
        } else if has_prefix(a, "-m="@) {
            parse_from(args, i + 1, Some(a.skip("-m="@.len() as int)))
        } else {
            Err(UNKNOWN_ARGUMENT@ + a + UNKNOWN_ARGUMENT_END@)
        }
    }
}

/// What the command line (without the program name) asks for.
pub open spec fn parsed(args: Seq<Seq<char>>) -> Result<Option<Option<Seq<char>>>, Seq<char>> {
    parse_from(args, 0, None)
}

fn value_after(a: &str, prefix: &str) -> (r: Option<String>)
    ensures
        match r {
            Some(v) => has_prefix(a@, prefix@) && v@ == a@.skip(prefix@.len() as int),
            None => !has_prefix(a@, prefix@),
        },
{
    let v = chars_of(a);
    let p = chars_of(prefix);
    if occurs_at_exec(&v, &p, 0) {
        let rest = string_of_range(&v, p.len(), v.len());
        assert(v@.subrange(p@.len() as int, v@.len() as int) =~= a@.skip(prefix@.len() as int));
        Some(rest)
    } else {
        None
    }
}

/// Reads the command line (without the program name): `-h`/`--help` asks
/// for help; `-m`/`--model` takes the next argument as the default model,
/// as do `--model=` and `-m=` with the rest of the argument; the last one
/// given wins; anything else is an error.
pub fn parse_args(args: &[String]) -> (r: Result<Option<Args>, String>)
    ensures
        match parsed(args@.map_values(|s: String| s@)) {
            Ok(None) => r matches Ok(None),
            Ok(Some(m)) => r matches Ok(Some(a)) && match a.default_model {
                Some(s) => m == Some(s@),
                None => m is None,
            },
            Err(msg) => r matches Err(e) && e@ == msg,
        },
{
    let ghost views = args@.map_values(|s: String| s@);
    let mut model: Option<String> = None;
    let mut i: usize = 0;
    while i < args.len()
        invariant
            i <= args@.len(),
            views == args@.map_values(|s: String| s@),
            parsed(views) == parse_from(
                views,
                i as int,
                match model {
                    Some(s) => Some(s@),
                    None => None,
                },
            ),
        decreases args@.len() - i,
    {
        let a = args[i].as_str();
        assert(views[i as int] == a@);
        if str_eq(a, "-h") || str_eq(a, "--help") {
            return Ok(None);
        } else if str_eq(a, "-m") || str_eq(a, "--model") {
            if i + 1 < args.len() {
                model = Some(args[i + 1].clone());
                assert(views[i + 1] == args@[i + 1]@);
                i = i + 2;
            } else {
                let mut msg = String::from_str(MISSING_VALUE);
                msg.append(a);
                msg.append(MISSING_VALUE_END);
                return Err(msg);
            }
        } else if let Some(v) = value_after(a, "--model=") {
            model = Some(v);
            i = i + 1;
        } else if let Some(v) = value_after(a, "-m=") {
            model = Some(v);
            i = i + 1;
        } else {
            let mut msg = String::from_str(UNKNOWN_ARGUMENT);
            msg.append(a);
            msg.append(UNKNOWN_ARGUMENT_END);
            return Err(msg);
        }
    }
    Ok(Some(Args { default_model: model }))
}

/// Asking for help comes first: a command line that starts with `-h` or
/// `--help` asks for help whatever follows.
pub proof fn lemma_help_first(args: Seq<Seq<char>>)
    requires
        args.len() > 0,
        args[0] == "-h"@ || args[0] == "--help"@,
    ensures
        parsed(args) == Ok::<Option<Option<Seq<char>>>, Seq<char>>(None),
{
}

/// The last `--model` wins: a model given as the last option is the default
/// model, whatever came before it.
pub proof fn lemma_last_model_wins(args: Seq<Seq<char>>, i: int, m: Seq<char>, earlier: Option<Seq<char>>)
    requires
        0 <= i,
        i + 2 == args.len(),
        args[i] == "--model"@,
        args[i + 1] == m,
    ensures
        parse_from(args, i, earlier) == Ok::<Option<Option<Seq<char>>>, Seq<char>>(Some(Some(m))),
{
    reveal_strlit("--model");
    reveal_strlit("-h");
    reveal_strlit("--help");
    assert(args[i] != "-h"@);
    assert(args[i] != "--help"@);
    assert(parse_from(args, i + 2, Some(m)) == Ok::<Option<Option<Seq<char>>>, Seq<char>>(
        Some(Some(m)),
    ));
}

/// `--model=NAME` and `-m=NAME` as the only argument set the default model
/// to the rest of the argument.
pub proof fn lemma_model_equals_form(rest: Seq<char>)
    ensures
        parsed(seq![seq!['-', '-', 'm', 'o', 'd', 'e', 'l', '='] + rest]) == Ok::<
            Option<Option<Seq<char>>>,
            Seq<char>,
        >(Some(Some(rest))),
        parsed(seq![seq!['-', 'm', '='] + rest]) == Ok::<Option<Option<Seq<char>>>, Seq<char>>(
            Some(Some(rest)),
        ),
{
    reveal_strlit("--model=");
    reveal_strlit("-m=");
    reveal_strlit("-h");
    reveal_strlit("--help");
    reveal_strlit("-m");
    reveal_strlit("--model");
    let a = seq!['-', '-', 'm', 'o', 'd', 'e', 'l', '='] + rest;
    let b = seq!['-', 'm', '='] + rest;
    assert(a[7] == '=');
    assert(a != "-h"@) by { assert(a.len() >= 8); }
    assert(a != "--help"@) by { assert(a.len() >= 8); }
    assert(a != "-m"@) by { assert(a.len() >= 8); }
    assert(a != "--model"@) by { assert(a.len() >= 8); }
    assert(a.subrange(0, 8) =~= "--model="@);
    assert(a.skip(8) =~= rest);
    assert(b != "-h"@) by { assert(b[2] == '='); }
    assert(b != "--help"@) by { assert(b[2] == '='); }
    assert(b != "-m"@) by { assert(b.len() >= 3); }
    assert(b != "--model"@) by { assert(b[1] == 'm'); }
    assert(!has_prefix(b, "--model="@)) by {
        if has_prefix(b, "--model="@) {
            assert(b.subrange(0, 8)[1] == "--model="@[1]);
        }
    }
    assert(b.subrange(0, 3) =~= "-m="@);
    assert(b.skip(3) =~= rest);
    assert(parse_from(seq![a], 1, Some(rest)) == Ok::<Option<Option<Seq<char>>>, Seq<char>>(Some(Some(rest))));
    assert(parse_from(seq![b], 1, Some(rest)) == Ok::<Option<Option<Seq<char>>>, Seq<char>>(Some(Some(rest))));
}

} // verus!
