use vstd::prelude::*;
use vstd::string::*;

verus! {

/// The serial number could not be found.
#[derive(Debug, Clone, PartialEq, Eq)]
pub enum SerialError {
    /// The configured command failed or printed nothing.
    CommandFailed(String),
    /// Neither a serial number nor a command is configured.
    NotConfigured,
}

/// What the serial-number command did.
#[derive(Debug, Clone, PartialEq, Eq)]
pub struct CommandOutput {
    /// It exited with status 0.
    pub success: bool,
    /// Its exit status, as text.
    pub status: String,
    pub stdout: String,
    pub stderr: String,
}

/// Unicode `White_Space`.
pub open spec fn is_white_space(c: char) -> bool {
    ||| c == '\t' || c == '\n' || c == '\x0B' || c == '\x0C' || c == '\r' || c == ' '
    ||| c == '\u{85}' || c == '\u{A0}' || c == '\u{1680}'
    ||| ('\u{2000}' <= c && c <= '\u{200A}')
    ||| c == '\u{2028}' || c == '\u{2029}' || c == '\u{202F}' || c == '\u{205F}' || c == '\u{3000}'
}

/// `s` without its leading white space.
pub open spec fn trim_front(s: Seq<char>) -> Seq<char>
    decreases s.len(),
{
    if s.len() > 0 && is_white_space(s[0]) {
        trim_front(s.subrange(1, s.len() as int))
    } else {
        s
    }
}

/// `s` without its trailing white space.
pub open spec fn trim_back(s: Seq<char>) -> Seq<char>
    decreases s.len(),
{
    if s.len() > 0 && is_white_space(s[s.len() - 1]) {
        trim_back(s.subrange(0, s.len() - 1))
    } else {
        s
    }
}

/// `s` without leading and trailing white space.
pub open spec fn trimmed(s: Seq<char>) -> Seq<char> {
    trim_back(trim_front(s))
}

fn white_space(c: char) -> (r: bool)
    ensures
        r == is_white_space(c),
{
    c == '\t' || c == '\n' || c == '\x0B' || c == '\x0C' || c == '\r' || c == ' ' || c == '\u{85}'
        || c == '\u{A0}' || c == '\u{1680}' || ('\u{2000}' <= c && c <= '\u{200A}') || c == '\u{2028}'
        || c == '\u{2029}' || c == '\u{202F}' || c == '\u{205F}' || c == '\u{3000}'
}

/// The text of `s` without leading and trailing white space.
pub fn trim_text(s: &str) -> (r: String)
    ensures
        r@ == trimmed(s@),
{
    let n = s.unicode_len();
    let mut i: usize = 0;
    assert(s@.subrange(0, n as int) =~= s@);
    while i < n && white_space(s.get_char(i))
        invariant
            n == s@.len(),
            i <= n,
            trim_front(s@.subrange(i as int, n as int)) == trim_front(s@),
        decreases n - i,
    {
        assert(s@.subrange(i as int, n as int).subrange(1, (n - i) as int) =~= s@.subrange(
            i + 1,
            n as int,
        ));
        i += 1;
    }
    let ghost front = s@.subrange(i as int, n as int);
    assert(trim_front(front) == front);
    let mut j: usize = n;
    while j > i && white_space(s.get_char(j - 1))
        invariant
            n == s@.len(),
            i <= j <= n,
            front == s@.subrange(i as int, n as int),
            trim_back(s@.subrange(i as int, j as int)) == trim_back(front),
        decreases j,
    {
        assert(s@.subrange(i as int, j as int).subrange(0, (j - i - 1) as int) =~= s@.subrange(
            i as int,
            j - 1,
        ));
        j -= 1;
    }
    assert(trim_back(s@.subrange(i as int, j as int)) == s@.subrange(i as int, j as int));
    s.substring_char(i, j).to_owned()
}

/// `r` is what the output `out` gives: the trimmed standard output where the
/// command succeeded and that is not empty, else a command failure, which names
/// the exit status and the trimmed standard error where the command failed.
pub open spec fn output_outcome(out: CommandOutput, r: Result<String, SerialError>) -> bool {
    &&& r is Ok <==> out.success && trimmed(out.stdout@).len() > 0
    &&& r matches Ok(s) ==> s@ == trimmed(out.stdout@)
    &&& r matches Err(e) ==> e is CommandFailed
    &&& !out.success ==> (r matches Err(SerialError::CommandFailed(m)) && m@ == "exit code "@
        + out.status@ + ": "@ + trimmed(out.stderr@))
}

/// The serial number that a command's output gives.
pub fn serial_from_output(out: &CommandOutput) -> (r: Result<String, SerialError>)
    ensures
        output_outcome(*out, r),
{
    if !out.success {
        let mut m = "exit code ".to_owned();
        m.append(out.status.as_str());
        m.append(": ");
        m.append(trim_text(out.stderr.as_str()).as_str());
        return Err(SerialError::CommandFailed(m));
    }
    let serial = trim_text(out.stdout.as_str());
    if serial.as_str().is_empty() {
        return Err(SerialError::CommandFailed("command produced empty output".to_owned()));
    }
    Ok(serial)
}

/// A configured serial number that is present and not empty.
pub open spec fn literal_serial(serial_number: Option<Seq<char>>) -> Option<Seq<char>> {
    match serial_number {
        Some(s) if s.len() > 0 => Some(s),
        _ => None,
    }
}

/// The view of an optional text.
pub open spec fn opt_view(o: Option<&str>) -> Option<Seq<char>> {
    match o {
        Some(s) => Some(s@),
        None => None,
    }
}

/// `r` is the serial number that a literal setting and a command's output give:
/// the literal where present and not empty; else what the output gives, where the
/// command was run; else not configured.
pub open spec fn resolution(
    serial_number: Option<Seq<char>>,
    command_output: Option<&CommandOutput>,
    r: Result<String, SerialError>,
) -> bool {
    match literal_serial(serial_number) {
        Some(s) => r matches Ok(v) && v@ == s,
        None => match command_output {
            Some(out) => output_outcome(*out, r),
            None => r matches Err(SerialError::NotConfigured),
        },
    }
}

/// The command to run for the serial number: only where no literal one is configured.
pub fn serial_command<'a>(serial_number: Option<&str>, serial_number_command: Option<&'a str>) -> (r:
    Option<&'a str>)
    ensures
        r == if literal_serial(opt_view(serial_number)) is Some {
            None
        } else {
            serial_number_command
        },
{
    match serial_number {
        Some(s) if !s.is_empty() => None,
        _ => serial_number_command,
    }
}

/// The device's serial number, from the literal setting or the command's output.
pub fn resolve_serial(serial_number: Option<&str>, command_output: Option<&CommandOutput>) -> (r:
    Result<String, SerialError>)
    ensures
        resolution(opt_view(serial_number), command_output, r),
{
    match serial_number {
        Some(s) if !s.is_empty() => {
            return Ok(s.to_owned());
        },
        _ => {},
    }
    match command_output {
        Some(out) => serial_from_output(out),
        None => Err(SerialError::NotConfigured),
    }
}

} // verus!
