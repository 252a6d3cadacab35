//! Argument handling for the converter: gathering the three positional
//! arguments and the result-only flag, parsing the two scale names, and the
//! fixed texts the program prints.

use crate::temperature::{spec_parse, Temperature};
use vstd::prelude::*;
use vstd::string::StringExecFns;
use vstd::string::StrSliceExecFns;

verus! {

/// The ways an invocation can go wrong; every one is terminal and is reported
/// with the usage text, one diagnostic line, and exit code 1.
#[derive(Clone, Copy, Debug, PartialEq, Eq, Structural)]
pub enum CliError {
    /// The degrees value was not supplied.
    MissingDegrees,
    /// The origin scale was not supplied.
    MissingFromScale,
    /// The target scale was not supplied.
    MissingToScale,
    /// The degrees token is not a valid floating-point literal.
    DegreesParseError,
    /// The origin token is not a prefix of any canonical scale name.
    InvalidFromScale,
    /// The target token is not a prefix of any canonical scale name.
    InvalidToScale,
}

/// The diagnostic line for each error.
pub open spec fn spec_message(e: CliError) -> Seq<char> {
    match e {
        CliError::MissingDegrees => "Didn't get a degrees value"@,
        CliError::MissingFromScale => "Didn't get the origin temperature scale"@,
        CliError::MissingToScale => "Didn't get the result temperature scale"@,
        CliError::DegreesParseError => "Couldn't parse the degrees"@,
        CliError::InvalidFromScale => "Invalid origin temperature scale"@,
        CliError::InvalidToScale => "Invalid result temperature scale"@,
    }
}

/// The diagnostic line for an error.
pub fn message(e: &CliError) -> (r: &'static str)
    ensures
        r@ == spec_message(*e),
{
    match e {
        CliError::MissingDegrees => "Didn't get a degrees value",
        CliError::MissingFromScale => "Didn't get the origin temperature scale",
        CliError::MissingToScale => "Didn't get the result temperature scale",
        CliError::DegreesParseError => "Couldn't parse the degrees",
        CliError::InvalidFromScale => "Invalid origin temperature scale",
        CliError::InvalidToScale => "Invalid result temperature scale",
    }
}

/// The three positional argument tokens, still as text, and the result-only
/// flag.
#[derive(Debug)]
pub struct RawArgs {
    pub degrees: String,
    pub from: String,
    pub to: String,
    pub result_only: bool,
}

/// Some argument after the three positional ones is exactly `-ro`.
pub open spec fn spec_has_result_only(args: Seq<String>) -> bool {
    exists|i: int| 3 <= i < args.len() && (#[trigger] args[i])@ == "-ro"@
}

/// Whether the two strings hold the same characters.
fn str_eq(a: &str, b: &str) -> (r: bool)
    ensures
        r == (a@ == b@),
{
    let n = a.unicode_len();
    if n != b.unicode_len() {
        return false;
    }
    let mut i: usize = 0;
    while i < n
        invariant
            i <= n,
            n == a@.len(),
            n == b@.len(),
            forall|j: int| 0 <= j < i ==> a@[j] == b@[j],
        decreases n - i,
    {
        if a.get_char(i) != b.get_char(i) {
            return false;
        }
        i += 1;
    }
    assert(a@ =~= b@);
    true
}

/// Takes the three positional arguments and scans the remaining ones for the
/// `-ro` flag.  Which argument is missing decides the error: first the
/// degrees value, then the origin scale, then the target scale.
pub fn gather_args(args: &Vec<String>) -> (r: Result<RawArgs, CliError>)
    ensures
        args@.len() == 0 ==> r == Err::<RawArgs, CliError>(CliError::MissingDegrees),
        args@.len() == 1 ==> r == Err::<RawArgs, CliError>(CliError::MissingFromScale),
        args@.len() == 2 ==> r == Err::<RawArgs, CliError>(CliError::MissingToScale),
        args@.len() >= 3 ==> r is Ok,
        r matches Ok(raw) ==> {
            &&& raw.degrees@ == args@[0]@
            &&& raw.from@ == args@[1]@
            &&& raw.to@ == args@[2]@
            &&& raw.result_only == spec_has_result_only(args@)
        },
{
    if args.len() == 0 {
        return Err(CliError::MissingDegrees);
    }
    if args.len() == 1 {
        return Err(CliError::MissingFromScale);
    }
    if args.len() == 2 {
        return Err(CliError::MissingToScale);
    }
    let degrees = args[0].clone();
    let from = args[1].clone();
    let to = args[2].clone();
    let mut result_only = false;
    let mut i: usize = 3;
    while i < args.len()
        invariant
            3 <= i <= args@.len(),
            result_only == exists|j: int| 3 <= j < i && (#[trigger] args@[j])@ == "-ro"@,
        decreases args@.len() - i,
    {
        if str_eq(args[i].as_str(), "-ro") {
            result_only = true;
        }
        i += 1;
    }
    Ok(RawArgs { degrees, from, to, result_only })
}

/// Parses the two scale tokens, the origin one first: an invalid origin scale
/// is reported even when the target scale is invalid too.
pub fn parse_scales(from: &str, to: &str) -> (r: Result<(Temperature, Temperature), CliError>)
    ensures
        spec_parse(from@) is None ==> r == Err::<(Temperature, Temperature), CliError>(
            CliError::InvalidFromScale,
        ),
        spec_parse(from@) is Some && spec_parse(to@) is None ==> r == Err::<
            (Temperature, Temperature),
            CliError,
        >(CliError::InvalidToScale),
        spec_parse(from@) is Some && spec_parse(to@) is Some ==> r == Ok::<
            (Temperature, Temperature),
            CliError,
        >((spec_parse(from@).unwrap(), spec_parse(to@).unwrap())),
{
    let from_scale = match Temperature::from_text(from) {
        Ok(t) => t,
        Err(_) => {
            return Err(CliError::InvalidFromScale);
        },
    };
    let to_scale = match Temperature::from_text(to) {
        Ok(t) => t,
        Err(_) => {
            return Err(CliError::InvalidToScale);
        },
    };
    Ok((from_scale, to_scale))
}

/// The usage block, as one string: the invocation shape, the four scale names
/// with their one-letter shorthands, and the result-only option.
pub open spec fn spec_usage(prog: Seq<char>) -> Seq<char> {
    "Usage: "@ + prog
        + " <degrees> (origin scale) (result scale) [options]\n\nTemperature scales:\nCelsius, 'c' for short.\nFahrenheit, 'f' for short.\nKelvin, 'k' for short.\nRankine, 'r' for short.\n\nOptions:\n-ro: Result Only.\n"@
}

/// Builds the usage block for the given program name.
pub fn usage_text(prog_name: &str) -> (r: String)
    ensures
        r@ == spec_usage(prog_name@),
{
    let mut s = String::new();
    s.append("Usage: ");
    s.append(prog_name);
    s.append(
        " <degrees> (origin scale) (result scale) [options]\n\nTemperature scales:\nCelsius, 'c' for short.\nFahrenheit, 'f' for short.\nKelvin, 'k' for short.\nRankine, 'r' for short.\n\nOptions:\n-ro: Result Only.\n",
    );
    proof {
        assert(s@ =~= spec_usage(prog_name@));
    }
    s
}

/// The full output sentence, built from the two formatted numbers and the two
/// scale names.
pub open spec fn spec_sentence(
    degrees_text: Seq<char>,
    from: Temperature,
    result_text: Seq<char>,
    to: Temperature,
) -> Seq<char> {
    degrees_text + " "@ + crate::temperature::spec_name(from) + " is "@ + result_text + " "@
        + crate::temperature::spec_name(to)
}

/// The one line the program prints on success: the bare result in
/// result-only mode, the full sentence otherwise.
pub fn output_line(
    result_only: bool,
    degrees_text: &str,
    from: Temperature,
    result_text: &str,
    to: Temperature,
) -> (r: String)
    ensures
        result_only ==> r@ == result_text@,
        !result_only ==> r@ == spec_sentence(degrees_text@, from, result_text@, to),
{
    if result_only {
        String::from_str(result_text)
    } else {
        sentence(degrees_text, from, result_text, to)
    }
}

/// Builds the sentence `"<degrees> <from name> is <result> <to name>"` from
/// the already formatted degree texts.
pub fn sentence(degrees_text: &str, from: Temperature, result_text: &str, to: Temperature) -> (r:
    String)
    ensures
        r@ == spec_sentence(degrees_text@, from, result_text@, to),
{
    let mut s = String::new();
    s.append(degrees_text);
    s.append(" ");
    s.append(from.name());
    s.append(" is ");
    s.append(result_text);
    s.append(" ");
    s.append(to.name());
    proof {
        assert(s@ =~= spec_sentence(degrees_text@, from, result_text@, to));
    }
    s
}

} // verus!
