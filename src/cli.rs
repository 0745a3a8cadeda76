//! Reading the program's arguments into the operation they select.
use vstd::prelude::*;

use crate::text::same_text;

verus! {

#[verifier::external_type_specification]
#[verifier::external_body]
pub struct ExParseIntError(std::num::ParseIntError);

/// The operation the arguments select.
#[derive(Debug)]
pub enum Command {
    /// No operand was given.
    Missing,
    /// `-p <pid>`: attach to a running process.
    Attach { pid: i32 },
    /// `<program> [args...]`: spawn the program under trace.
    Fork { program: String, args: Vec<String> },
}

/// Why the arguments select no operation.
#[derive(Debug)]
pub enum CommandFromArgsError {
    /// The value after `-p` is no process identifier.
    CommandPidParseError(std::num::ParseIntError),
}

pub open spec fn is_digit(c: char) -> bool {
    '0' <= c && c <= '9'
}

pub open spec fn all_digits(s: Seq<char>) -> bool {
    forall|i: int| 0 <= i < s.len() ==> is_digit(#[trigger] s[i])
}

/// The number that a sequence of decimal digits writes.
pub open spec fn digits_value(s: Seq<char>) -> int
    decreases s.len(),
{
    if s.len() == 0 {
        0
    } else {
        10 * digits_value(s.drop_last()) + (s.last() as u32 - '0' as u32)
    }
}

/// The integer a text writes in decimal: an optional `+` or `-`, then one or
/// more digits, and nothing else.
pub open spec fn decimal_of(s: Seq<char>) -> Option<int> {
    if s.len() > 1 && s[0] == '-' && all_digits(s.drop_first()) {
        Some(-digits_value(s.drop_first()))
    } else if s.len() > 1 && s[0] == '+' && all_digits(s.drop_first()) {
        Some(digits_value(s.drop_first()))
    } else if s.len() > 0 && all_digits(s) {
        Some(digits_value(s))
    } else {
        None
    }
}

/// Whether a text writes a decimal integer that fits an `i32`.
pub open spec fn is_i32_text(s: Seq<char>) -> bool {
    &&& decimal_of(s) is Some
    &&& i32::MIN <= decimal_of(s)->Some_0 <= i32::MAX
}

/// Relies on `str::parse::<i32>` (i32's `FromStr`, that is
/// `i32::from_str_radix(s, 10)`): it accepts an optional `+` or `-` followed
/// by one or more ASCII digits and nothing else, and fails when the value does
/// not fit.
#[verifier::external_body]
fn parse_i32(s: &str) -> (r: Result<i32, std::num::ParseIntError>)
    ensures
        r is Ok <==> is_i32_text(s@),
        r is Ok ==> r->Ok_0 == decimal_of(s@)->Some_0,
{
    s.parse::<i32>()
}

/// Whether the arguments are exactly a program name, `-p` and one value.
pub open spec fn is_attach_form(args: Seq<String>) -> bool {
    args.len() == 3 && args[1]@ == "-p"@
}

impl Command {
    /// Reads the arguments, the program's own name first. With nothing after
    /// the name no operation is selected; `-p` and one value attach to the
    /// process that the value names, which must be a decimal `i32`; anything
    /// else spawns the first operand with the rest as its arguments.
    pub fn from_args(args: &[String]) -> (r: Result<Command, CommandFromArgsError>)
        ensures
            args@.len() <= 1 ==> r matches Ok(Command::Missing),
            is_attach_form(args@) && is_i32_text(args@[2]@) ==> (r matches Ok(
                Command::Attach { pid },
            ) && pid == decimal_of(args@[2]@)->Some_0),
            is_attach_form(args@) && !is_i32_text(args@[2]@) ==> r is Err,
            args@.len() > 1 && !is_attach_form(args@) ==> (r matches Ok(
                Command::Fork { program, args: rest },
            ) && program == args@[1] && rest@ == args@.subrange(2, args@.len() as int)),
    {
        if args.len() <= 1 {
            return Ok(Command::Missing);
        }
        if args.len() == 3 && same_text(args[1].as_str(), "-p") {
            return match parse_i32(args[2].as_str()) {
                Ok(pid) => Ok(Command::Attach { pid }),
                Err(e) => Err(CommandFromArgsError::CommandPidParseError(e)),
            };
        }
        let mut rest: Vec<String> = Vec::new();
        let mut i: usize = 2;
        while i < args.len()
            invariant
                2 <= i <= args@.len(),
                rest@ == args@.subrange(2, i as int),
            decreases args@.len() - i,
        {
            rest.push(args[i].clone());
            assert(rest@ =~= args@.subrange(2, i + 1));
            i = i + 1;
        }
        Ok(Command::Fork { program: args[1].clone(), args: rest })
    }
}

} // verus!
