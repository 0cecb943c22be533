use vstd::prelude::*;

use crate::error::ConfigParseError;

verus! {

/// Field separator of a command-file line.
pub const FIELD_SEPARATOR: char = '-';

/// Number of occurrences of `c` in `s`.
pub open spec fn count_char(s: Seq<char>, c: char) -> nat
    decreases s.len(),
{
    if s.len() == 0 {
        0
    } else {
        count_char(s.drop_last(), c) + if s.last() == c {
            1nat
        } else {
            0nat
        }
    }
}

/// A line splits on the separator into exactly two fields.
pub open spec fn is_command_line(line: Seq<char>) -> bool {
    count_char(line, FIELD_SEPARATOR) == 1
}

/// `command` and `description` are the two fields of `line`.
pub open spec fn fields_of(line: Seq<char>, command: Seq<char>, description: Seq<char>) -> bool {
    &&& command + seq![FIELD_SEPARATOR] + description == line
    &&& !command.contains(FIELD_SEPARATOR)
}

/// One entry of the command reference: a usage text and what it does.
pub struct Commnads {
    pub command: String,
    pub description: String,
}

impl Commnads {
    pub fn new(c: String, d: String) -> (r: Commnads)
        ensures
            r.command@ == c@,
            r.description@ == d@,
    {
        Commnads { command: c, description: d }
    }

    /// This entry is the one that `line` describes.
    pub open spec fn parsed_from(&self, line: Seq<char>) -> bool {
        fields_of(line, self.command@, self.description@)
    }
}

proof fn lemma_count_step(s: Seq<char>, i: int, c: char)
    requires
        0 <= i < s.len(),
    ensures
        count_char(s.subrange(0, i + 1), c) == count_char(s.subrange(0, i), c) + if s[i] == c {
            1nat
        } else {
            0nat
        },
{
    assert(s.subrange(0, i + 1).drop_last() =~= s.subrange(0, i));
}

/// Splits one line of the command file into its usage text and its
/// description; `None` unless the line holds exactly one separator.
pub fn parse_command_line(line: &str) -> (r: Option<Commnads>)
    ensures
        r is Some <==> is_command_line(line@),
        r matches Some(c) ==> c.parsed_from(line@),
{
    let n: usize = line.unicode_len();
    let mut count: usize = 0;
    let mut first: usize = 0;
    let mut i: usize = 0;
    while i < n
        invariant
            n == line@.len(),
            i <= n,
            count <= i,
            count == count_char(line@.subrange(0, i as int), FIELD_SEPARATOR),
            count == 0 ==> forall|j: int| 0 <= j < i ==> line@[j] != FIELD_SEPARATOR,
            count > 0 ==> first < i && line@[first as int] == FIELD_SEPARATOR,
            count > 0 ==> forall|j: int| 0 <= j < first ==> line@[j] != FIELD_SEPARATOR,
        decreases n - i,
    {
        let c = line.get_char(i);
        proof {
            lemma_count_step(line@, i as int, FIELD_SEPARATOR);
        }
        if c == FIELD_SEPARATOR {
            if count == 0 {
                first = i;
            }
            count = count + 1;
        }
        i = i + 1;
    }
    assert(line@.subrange(0, n as int) =~= line@);
    if count != 1 {
        return None;
    }
    let command = line.substring_char(0, first).to_owned();
    let description = line.substring_char(first + 1, n).to_owned();
    assert(command@ + seq![FIELD_SEPARATOR] + description@ =~= line@);
    assert(!command@.contains(FIELD_SEPARATOR)) by {
        assert forall|j: int| 0 <= j < command@.len() implies command@[j] != FIELD_SEPARATOR by {
            assert(command@[j] == line@[j]);
        }
    }
    Some(Commnads::new(command, description))
}

/// Every line of `lines` before `end` is a command line.
pub open spec fn all_command_lines(lines: Seq<String>, end: int) -> bool {
    forall|j: int| 0 <= j < end ==> is_command_line(#[trigger] lines[j]@)
}

/// Parses every line of the command file. Fails at the first line that does
/// not hold exactly two fields.
pub fn parse_command_lines(lines: &Vec<String>) -> (r: Result<Vec<Commnads>, ConfigParseError>)
    ensures
        r is Ok <==> all_command_lines(lines@, lines@.len() as int),
        r matches Ok(v) ==> v@.len() == lines@.len() && forall|j: int|
            0 <= j < v@.len() ==> (#[trigger] v@[j]).parsed_from(lines@[j]@),
        r matches Err(e) ==> e.line < lines@.len() && !is_command_line(lines@[e.line as int]@)
            && all_command_lines(lines@, e.line as int),
{
    let mut parsed: Vec<Commnads> = Vec::new();
    let mut i: usize = 0;
    while i < lines.len()
        invariant
            i <= lines@.len(),
            parsed@.len() == i,
            all_command_lines(lines@, i as int),
            forall|j: int| 0 <= j < i ==> (#[trigger] parsed@[j]).parsed_from(lines@[j]@),
        decreases lines@.len() - i,
    {
        match parse_command_line(lines[i].as_str()) {
            Some(entry) => {
                parsed.push(entry);
            },
            None => {
                return Err(ConfigParseError { line: i });
            },
        }
        i = i + 1;
    }
    Ok(parsed)
}

} // verus!
