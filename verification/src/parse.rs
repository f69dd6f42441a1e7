//! Parsing one input line: the redirect extractor, which splits the line into
//! a command portion and its redirect targets, and the split of the command
//! portion's words into a command and its arguments.
//!
//! The redirect extractor reads the raw line, before any quote is resolved.
//! A `>` is a redirect operator unless a backslash stands right before it.
//! The character before the `>` tells the stream: standard output after a
//! `1`, after whitespace and at the start of the line; standard error after a
//! `2`. After any other character the operator still ends the command
//! portion, but redirects nothing, and the scan goes on past the character
//! that follows it. A second `>` right after the first makes the redirect
//! append. One more character, the separator, is passed over whatever it is,
//! and the file name runs up to the next whitespace character, or to the end
//! of the line where none follows. An empty name redirects nothing.
//!
//! Of several operators for one stream the first decides; the later ones are
//! read, so that their file names are passed over, and dropped. The command
//! portion is the text before the first operator, the operator's digit not
//! included, followed by a newline, which ends the last word for the
//! tokenizer.

use vstd::prelude::*;
use crate::lexer::{
    in_quote, initial, law_unterminated_double_quote, law_unterminated_single_quote, scan, tokenize,
    tokens_of,
};
use crate::output::{select_target, target_of, StreamTarget, TargetView};
use crate::text::{char_is_whitespace, chars_of, is_whitespace, string_from_chars, views};

verus! {

/// One of the two output streams that a line can redirect.
#[derive(Clone, Copy, Debug, PartialEq, Eq)]
pub enum Stream {
    Stdout,
    Stderr,
}

/// The smaller of `i` and `len`.
pub open spec fn clip(i: int, len: int) -> int {
    if i < len {
        i
    } else {
        len
    }
}

/// A `>` stands at `i` and no backslash stands right before it.
pub open spec fn is_operator_at(s: Seq<char>, i: int) -> bool {
    &&& 0 <= i < s.len()
    &&& s[i] == '>'
    &&& (i > 0 ==> s[i - 1] != '\\')
}

/// The place of the first redirect operator at or after `from`, or the
/// length of `s` where there is none.
pub open spec fn next_operator(s: Seq<char>, from: int) -> int
    decreases s.len() - from,
{
    if from < 0 || from >= s.len() {
        s.len() as int
    } else if is_operator_at(s, from) {
        from
    } else {
        next_operator(s, from + 1)
    }
}

/// The stream that the operator at `i` redirects, read off the character
/// before the `>`: standard output after a `1`, after whitespace and at the
/// start of the line, standard error after a `2`, and neither after anything
/// else.
pub open spec fn operator_stream(s: Seq<char>, i: int) -> Option<Stream> {
    if i <= 0 || s[i - 1] == '1' || is_whitespace(s[i - 1]) {
        Some(Stream::Stdout)
    } else if s[i - 1] == '2' {
        Some(Stream::Stderr)
    } else {
        None
    }
}

/// Where the operator whose `>` stands at `i` begins: at the digit before
/// the `>` where there is one, else at the `>`.
pub open spec fn operator_start(s: Seq<char>, i: int) -> int {
    if i > 0 && (s[i - 1] == '1' || s[i - 1] == '2') {
        i - 1
    } else {
        i
    }
}

/// The `>` at `i` is doubled: the redirect appends.
pub open spec fn operator_appends(s: Seq<char>, i: int) -> bool {
    i + 1 < s.len() && s[i + 1] == '>'
}

/// Where the file name of the operator at `i` begins: after the `>`, its
/// doubling if any, and one more character, the separator.
pub open spec fn name_start(s: Seq<char>, i: int) -> int {
    clip(
        if operator_appends(s, i) {
            i + 3
        } else {
            i + 2
        },
        s.len() as int,
    )
}

/// The place of the first whitespace character at or after `from`, or the
/// length of `s` where there is none.
pub open spec fn name_end(s: Seq<char>, from: int) -> int
    decreases s.len() - from,
{
    if from < 0 || from >= s.len() {
        s.len() as int
    } else if is_whitespace(s[from]) {
        from
    } else {
        name_end(s, from + 1)
    }
}

/// The file name that begins at `from`: the characters up to the next
/// whitespace character, or up to the end of the text where none follows.
/// It is empty where nothing is left at `from`.
pub open spec fn name_at(s: Seq<char>, from: int) -> Seq<char> {
    if 0 <= from <= s.len() {
        s.subrange(from, name_end(s, from))
    } else {
        Seq::empty()
    }
}

/// Where reading goes on after the file name that begins at `from`: past the
/// whitespace character that ends it, or at the end of the text.
pub open spec fn after_name(s: Seq<char>, from: int) -> int {
    clip(name_end(s, from) + 1, s.len() as int)
}

/// Where the scan for operators goes on after the operator at `i`: past its
/// file name where it redirects a stream, and otherwise past the character
/// that follows the `>`.
pub open spec fn operator_end(s: Seq<char>, i: int) -> int {
    match operator_stream(s, i) {
        Some(_) => after_name(s, name_start(s, i)),
        None => clip(i + 2, s.len() as int),
    }
}

/// The next operator lies at or after `from`, and nothing between the two
/// is an operator.
pub proof fn lemma_next_operator_bounds(s: Seq<char>, from: int)
    requires
        0 <= from <= s.len(),
    ensures
        from <= next_operator(s, from) <= s.len(),
        next_operator(s, from) < s.len() ==> is_operator_at(s, next_operator(s, from)),
        forall|k: int| from <= k < next_operator(s, from) ==> !is_operator_at(s, k),
    decreases s.len() - from,
{
    if from < s.len() && !is_operator_at(s, from) {
        lemma_next_operator_bounds(s, from + 1);
    }
}

/// A file name ends at or after its start, at a whitespace character or at
/// the end of the text, and holds no whitespace.
pub proof fn lemma_name_end_bounds(s: Seq<char>, from: int)
    requires
        0 <= from <= s.len(),
    ensures
        from <= name_end(s, from) <= s.len(),
        name_end(s, from) < s.len() ==> is_whitespace(s[name_end(s, from)]),
        forall|k: int| from <= k < name_end(s, from) ==> !is_whitespace(s[k]),
    decreases s.len() - from,
{
    if from < s.len() && !is_whitespace(s[from]) {
        lemma_name_end_bounds(s, from + 1);
    }
}

/// The scan moves forward past every operator.
pub proof fn lemma_operator_end_bounds(s: Seq<char>, i: int)
    requires
        0 <= i < s.len(),
    ensures
        i < operator_end(s, i) <= s.len(),
{
    lemma_name_end_bounds(s, name_start(s, i));
}

/// The place of the first operator for `stream` that the scan meets from
/// `from` on. The scan passes over each operator's file name, so a `>`
/// inside a file name is no operator.
pub open spec fn first_redirect(s: Seq<char>, from: int, stream: Stream) -> Option<int>
    decreases s.len() - from,
{
    let i = next_operator(s, from);
    if from < 0 || i >= s.len() {
        None
    } else if operator_stream(s, i) == Some(stream) {
        Some(i)
    } else {
        proof {
            lemma_next_operator_bounds(s, from);
            lemma_operator_end_bounds(s, i);
        }
        first_redirect(s, operator_end(s, i), stream)
    }
}

/// The file that `stream` is redirected to: the file name of the first
/// operator for that stream, and the empty path where there is none.
pub open spec fn redirect_path(s: Seq<char>, stream: Stream) -> Seq<char> {
    match first_redirect(s, 0, stream) {
        Some(i) => name_at(s, name_start(s, i)),
        None => Seq::empty(),
    }
}

/// Whether the first operator for `stream` is doubled.
pub open spec fn redirect_appends(s: Seq<char>, stream: Stream) -> bool {
    match first_redirect(s, 0, stream) {
        Some(i) => operator_appends(s, i),
        None => false,
    }
}

/// The text before the first redirect operator, or the whole line where
/// there is none, followed by a newline.
pub open spec fn command_portion(s: Seq<char>) -> Seq<char> {
    let i = next_operator(s, 0);
    (if i < s.len() {
        s.subrange(0, operator_start(s, i))
    } else {
        s
    }) + seq!['\n']
}

/// Where no `>` stands from `from` up to the operator at `k`, that operator
/// is the next one.
pub proof fn lemma_next_operator_is(s: Seq<char>, from: int, k: int)
    requires
        0 <= from <= k < s.len(),
        is_operator_at(s, k),
        forall|j: int| from <= j < k ==> s[j] != '>',
    ensures
        next_operator(s, from) == k,
    decreases k - from,
{
    if from < k {
        lemma_next_operator_is(s, from + 1, k);
    }
}

/// Where no whitespace stands from `from` up to the whitespace character at
/// `k`, the file name that begins at `from` ends at `k`.
pub proof fn lemma_name_end_is(s: Seq<char>, from: int, k: int)
    requires
        0 <= from <= k < s.len(),
        is_whitespace(s[k]),
        forall|j: int| from <= j < k ==> !is_whitespace(s[j]),
    ensures
        name_end(s, from) == k,
    decreases k - from,
{
    if from < k {
        lemma_name_end_is(s, from + 1, k);
    }
}

/// The text of a redirect operator: an optional digit, `>`, and a second `>`
/// where it appends.
pub open spec fn operator_text(digit: Option<char>, appends: bool) -> Seq<char> {
    (match digit {
        Some(d) => seq![d],
        None => Seq::empty(),
    }) + (if appends {
        seq!['>', '>']
    } else {
        seq!['>']
    })
}

/// The table of operators. Take a command text without `>` that is empty or
/// ends in whitespace, one of the six operators `>`, `1>`, `>>`, `1>>`, `2>`,
/// `2>>`, a space, a file name without whitespace, and a rest without `>`
/// that is empty or begins with whitespace. Then the command portion is the
/// command text and a newline; the operator's stream (standard error for the
/// digit `2`, standard output otherwise) is redirected to the file name,
/// appending exactly where the `>` is doubled; and the other stream is not
/// redirected. The file name may be the last thing on the line.
pub proof fn law_operator_table(
    command: Seq<char>,
    digit: Option<char>,
    appends: bool,
    name: Seq<char>,
    rest: Seq<char>,
)
    requires
        forall|j: int| 0 <= j < command.len() ==> command[j] != '>',
        command.len() > 0 ==> is_whitespace(command.last()),
        digit is Some ==> digit->0 == '1' || digit->0 == '2',
        name.len() > 0,
        forall|j: int| 0 <= j < name.len() ==> !is_whitespace(name[j]),
        rest.len() > 0 ==> is_whitespace(rest[0]),
        forall|j: int| 0 <= j < rest.len() ==> rest[j] != '>',
    ensures
        ({
            let line = command + operator_text(digit, appends) + seq![' '] + name + rest;
            let to_stderr = digit == Some('2');
            redirects_of(line) == (RedirectView {
                redirect_stdout: !to_stderr,
                append_stdout: !to_stderr && appends,
                stdout_path: if to_stderr {
                    Seq::empty()
                } else {
                    name
                },
                redirect_stderr: to_stderr,
                append_stderr: to_stderr && appends,
                stderr_path: if to_stderr {
                    name
                } else {
                    Seq::empty()
                },
                command: command + seq!['\n'],
            })
        }),
{
    let op = operator_text(digit, appends);
    let line = command + op + seq![' '] + name + rest;
    let digits: int = if digit is Some {
        1
    } else {
        0
    };
    let k = command.len() + digits;
    let start = k + (if appends {
        3int
    } else {
        2int
    });
    let end = start + name.len();
    assert(line.len() == end + rest.len());
    assert(forall|j: int| 0 <= j < command.len() ==> line[j] == command[j]);
    assert(digit is Some ==> line[k - 1] == digit->0);
    assert(line[k] == '>');
    assert(appends ==> line[k + 1] == '>');
    assert(line[start - 1] == ' ');
    assert(forall|j: int| 0 <= j < name.len() ==> line[start + j] == name[j]);
    assert(forall|j: int| 0 <= j < rest.len() ==> line[end + j] == rest[j]);
    assert(command.len() > 0 ==> line[command.len() - 1] == command.last());
    assert(is_operator_at(line, k));
    lemma_next_operator_is(line, 0, k);
    assert(name_end(line, start) == end) by {
        if rest.len() > 0 {
            assert(line[end] == rest[0]);
            lemma_name_end_is(line, start, end);
        } else {
            lemma_name_end_bounds(line, start);
            let found = name_end(line, start);
            if found < end {
                assert(line[start + (found - start)] == name[found - start]);
            }
        }
    }
    assert(operator_appends(line, k) == appends);
    assert(name_start(line, k) == start);
    assert(name_at(line, start) =~= name);
    let resume = operator_end(line, k);
    assert(resume == clip(end + 1, line.len() as int));
    assert(line.subrange(0, operator_start(line, k)) =~= command);
    let to_stderr = digit == Some('2');
    let other = if to_stderr {
        Stream::Stdout
    } else {
        Stream::Stderr
    };
    assert(first_redirect(line, 0, other) is None) by {
        assert forall|j: int| resume <= j < line.len() implies line[j] != '>' by {
            assert(line[end + (j - end)] == rest[j - end]);
        }
        lemma_no_operator(line, resume);
        assert(first_redirect(line, resume, other) is None);
    }
}

/// The mathematical value of a [`RedirectInfo`].
pub struct RedirectView {
    pub redirect_stdout: bool,
    pub append_stdout: bool,
    pub stdout_path: Seq<char>,
    pub redirect_stderr: bool,
    pub append_stderr: bool,
    pub stderr_path: Seq<char>,
    pub command: Seq<char>,
}

/// What the redirect extractor makes of a line.
pub open spec fn redirects_of(s: Seq<char>) -> RedirectView {
    RedirectView {
        redirect_stdout: redirect_path(s, Stream::Stdout).len() > 0,
        append_stdout: redirect_appends(s, Stream::Stdout),
        stdout_path: redirect_path(s, Stream::Stdout),
        redirect_stderr: redirect_path(s, Stream::Stderr).len() > 0,
        append_stderr: redirect_appends(s, Stream::Stderr),
        stderr_path: redirect_path(s, Stream::Stderr),
        command: command_portion(s),
    }
}

/// The redirect targets of a line and its command portion.
#[derive(Debug)]
pub struct RedirectInfo {
    pub redirect_stdout: bool,
    pub append_stdout: bool,
    pub stdout_path: String,
    pub redirect_stderr: bool,
    pub append_stderr: bool,
    pub stderr_path: String,
    /// The command portion: the text that the tokenizer reads.
    pub remaining: String,
}

impl View for RedirectInfo {
    type V = RedirectView;

    open spec fn view(&self) -> RedirectView {
        RedirectView {
            redirect_stdout: self.redirect_stdout,
            append_stdout: self.append_stdout,
            stdout_path: self.stdout_path@,
            redirect_stderr: self.redirect_stderr,
            append_stderr: self.append_stderr,
            stderr_path: self.stderr_path@,
            command: self.remaining@,
        }
    }
}

impl RedirectInfo {
    /// A stream is redirected exactly when its path is not empty.
    pub open spec fn wf(&self) -> bool {
        &&& self.redirect_stdout == (self.stdout_path@.len() > 0)
        &&& self.redirect_stderr == (self.stderr_path@.len() > 0)
    }

    /// Puts the targets and the command portion together; a stream counts as
    /// redirected exactly when its path is not empty.
    pub fn new(
        stdout_path: String,
        stderr_path: String,
        append_stdout: bool,
        append_stderr: bool,
        remaining: String,
    ) -> (info: RedirectInfo)
        ensures
            info@ == (RedirectView {
                redirect_stdout: stdout_path@.len() > 0,
                append_stdout,
                stdout_path: stdout_path@,
                redirect_stderr: stderr_path@.len() > 0,
                append_stderr,
                stderr_path: stderr_path@,
                command: remaining@,
            }),
            info.wf(),
    {
        let redirect_stdout = !stdout_path.as_str().is_empty();
        let redirect_stderr = !stderr_path.as_str().is_empty();
        RedirectInfo {
            redirect_stdout,
            append_stdout,
            stdout_path,
            redirect_stderr,
            append_stderr,
            stderr_path,
            remaining,
        }
    }

    /// Where standard output goes.
    pub fn stdout_target(&self) -> (target: StreamTarget)
        ensures
            target@ == target_of(self@.redirect_stdout, self@.stdout_path, self@.append_stdout),
    {
        select_target(self.redirect_stdout, &self.stdout_path, self.append_stdout)
    }

    /// Where standard error goes.
    pub fn stderr_target(&self) -> (target: StreamTarget)
        ensures
            target@ == target_of(self@.redirect_stderr, self@.stderr_path, self@.append_stderr),
    {
        select_target(self.redirect_stderr, &self.stderr_path, self.append_stderr)
    }
}

/// Reads a file name from `chars` at `*pos`: the characters up to the next
/// whitespace character, which is passed over too, or up to the end of
/// `chars` where none follows. The name is empty where nothing is left to
/// read.
pub fn extract_filename(chars: &Vec<char>, pos: &mut usize) -> (name: String)
    ensures
        name@ == name_at(chars@, *old(pos) as int),
        *final(pos) == after_name(chars@, *old(pos) as int),
{
    let ghost s = chars@;
    let ghost from = *pos as int;
    let n = chars.len();
    let mut filename: Vec<char> = Vec::new();
    if *pos >= n {
        *pos = n;
        assert(from == n ==> filename@ =~= s.subrange(from, n as int));
        return string_from_chars(&filename);
    }
    let mut i = *pos;
    assert(filename@ =~= s.subrange(from, i as int));
    while i < n
        invariant
            n == chars.len(),
            s == chars@,
            from == *old(pos),
            0 <= from <= i <= n,
            name_end(s, from) == name_end(s, i as int),
            filename@ == s.subrange(from, i as int),
        decreases n - i,
    {
        let c = chars[i];
        if char_is_whitespace(c) {
            *pos = i + 1;
            return string_from_chars(&filename);
        }
        filename.push(c);
        i += 1;
        assert(filename@ =~= s.subrange(from, i as int));
    }
    *pos = n;
    string_from_chars(&filename)
}

/// What the scan knows of one stream once it has read up to `i`: either it
/// has met the stream's first operator and holds its path and mode, or it has
/// met none and holds nothing.
spec fn stream_progress(
    s: Seq<char>,
    i: int,
    stream: Stream,
    seen: bool,
    path: Seq<char>,
    appends: bool,
) -> bool {
    if seen {
        &&& first_redirect(s, 0, stream) matches Some(k)
        &&& path == name_at(s, name_start(s, k))
        &&& appends == operator_appends(s, k)
    } else {
        &&& first_redirect(s, 0, stream) == first_redirect(s, i, stream)
        &&& path == Seq::<char>::empty()
        &&& !appends
    }
}

/// Tells which stream the operator at `i` redirects.
fn stream_before(chars: &Vec<char>, i: usize) -> (stream: Option<Stream>)
    requires
        i < chars.len(),
    ensures
        stream == operator_stream(chars@, i as int),
{
    if i == 0 {
        return Some(Stream::Stdout);
    }
    let previous = chars[i - 1];
    if previous == '1' || char_is_whitespace(previous) {
        Some(Stream::Stdout)
    } else if previous == '2' {
        Some(Stream::Stderr)
    } else {
        None
    }
}

/// The redirect extractor: finds the redirect operators of a line, takes the
/// first target of each stream, and keeps the text before the first operator
/// as the command portion, ended by a newline.
pub fn parse_redirect(input: &String) -> (info: RedirectInfo)
    ensures
        info@ == redirects_of(input@),
        info.wf(),
{
    let chars = chars_of(input.as_str());
    let ghost s = chars@;
    let n = chars.len();
    let mut stdout_path = String::new();
    let mut stderr_path = String::new();
    let mut append_stdout = false;
    let mut append_stderr = false;
    let mut seen_stdout = false;
    let mut seen_stderr = false;
    let mut found_redirect = false;
    let mut cut: usize = n;
    let mut i: usize = 0;
    while i < n
        invariant
            s == chars@,
            n == chars.len(),
            i <= n,
            cut <= n,
            if found_redirect {
                next_operator(s, 0) < n && cut == operator_start(s, next_operator(s, 0))
            } else {
                next_operator(s, 0) == next_operator(s, i as int) && cut == n
            },
            stream_progress(s, i as int, Stream::Stdout, seen_stdout, stdout_path@, append_stdout),
            stream_progress(s, i as int, Stream::Stderr, seen_stderr, stderr_path@, append_stderr),
        decreases n - i,
    {
        if chars[i] == '>' && (i == 0 || chars[i - 1] != '\\') {
            assert(is_operator_at(s, i as int));
            proof {
                lemma_operator_end_bounds(s, i as int);
            }
            if !found_redirect {
                found_redirect = true;
                cut = if i > 0 && (chars[i - 1] == '1' || chars[i - 1] == '2') {
                    i - 1
                } else {
                    i
                };
            }
            let appends = i + 1 < n && chars[i + 1] == '>';
            match stream_before(&chars, i) {
                None => {
                    i = if n - i > 2 {
                        i + 2
                    } else {
                        n
                    };
                },
                Some(stream) => {
                    let skip: usize = if appends {
                        3
                    } else {
                        2
                    };
                    let mut pos: usize = if n - i > skip {
                        i + skip
                    } else {
                        n
                    };
                    let name = extract_filename(&chars, &mut pos);
                    match stream {
                        Stream::Stdout => {
                            if !seen_stdout {
                                seen_stdout = true;
                                stdout_path = name;
                                append_stdout = appends;
                            }
                        },
                        Stream::Stderr => {
                            if !seen_stderr {
                                seen_stderr = true;
                                stderr_path = name;
                                append_stderr = appends;
                            }
                        },
                    }
                    i = pos;
                },
            }
        } else {
            assert(!is_operator_at(s, i as int));
            i += 1;
        }
    }
    let mut pre_redirect: Vec<char> = Vec::new();
    let mut k: usize = 0;
    while k < cut
        invariant
            s == chars@,
            k <= cut <= chars.len(),
            pre_redirect@ == s.subrange(0, k as int),
        decreases cut - k,
    {
        pre_redirect.push(chars[k]);
        k += 1;
        assert(pre_redirect@ =~= s.subrange(0, k as int));
    }
    pre_redirect.push('\n');
    proof {
        assert(s.subrange(0, n as int) =~= s);
        assert(pre_redirect@ =~= command_portion(s));
    }
    let remaining = string_from_chars(&pre_redirect);
    RedirectInfo::new(stdout_path, stderr_path, append_stdout, append_stderr, remaining)
}

/// The mathematical value of a [`ParsedData`].
pub struct ParsedView {
    pub command: Seq<char>,
    pub args: Seq<Seq<char>>,
    pub redirect_info: RedirectView,
}

/// One parsed line: the command, its arguments in order, and the redirect
/// targets. The words hold no quote or escape characters that are still to
/// be resolved.
#[derive(Debug)]
pub struct ParsedData {
    pub command: String,
    pub args: Vec<String>,
    pub redirect_info: RedirectInfo,
}

impl View for ParsedData {
    type V = ParsedView;

    open spec fn view(&self) -> ParsedView {
        ParsedView {
            command: self.command@,
            args: views(self.args@),
            redirect_info: self.redirect_info@,
        }
    }
}

impl ParsedData {
    /// Puts a command, its arguments and the redirect targets together.
    pub fn new(command: String, args: Vec<String>, redirect_info: RedirectInfo) -> (parsed:
        ParsedData)
        ensures
            parsed.command == command,
            parsed.args == args,
            parsed.redirect_info == redirect_info,
    {
        ParsedData { command, args, redirect_info }
    }

    /// Where the command's standard output goes.
    pub fn stdout_target(&self) -> (target: StreamTarget)
        ensures
            target@ == stdout_target_of(self@.redirect_info),
    {
        self.redirect_info.stdout_target()
    }

    /// Where the command's standard error goes.
    pub fn stderr_target(&self) -> (target: StreamTarget)
        ensures
            target@ == stderr_target_of(self@.redirect_info),
    {
        self.redirect_info.stderr_target()
    }
}

/// Where standard output goes under the given redirects.
pub open spec fn stdout_target_of(r: RedirectView) -> TargetView {
    target_of(r.redirect_stdout, r.stdout_path, r.append_stdout)
}

/// Where standard error goes under the given redirects.
pub open spec fn stderr_target_of(r: RedirectView) -> TargetView {
    target_of(r.redirect_stderr, r.stderr_path, r.append_stderr)
}

/// The command among the words of a line: the first word, and the empty
/// string where the line has no word.
pub open spec fn command_of(words: Seq<Seq<char>>) -> Seq<char> {
    if words.len() > 0 {
        words[0]
    } else {
        Seq::empty()
    }
}

/// The arguments among the words of a line: all words after the first.
pub open spec fn args_of(words: Seq<Seq<char>>) -> Seq<Seq<char>> {
    if words.len() > 0 {
        words.subrange(1, words.len() as int)
    } else {
        Seq::empty()
    }
}

/// What parsing makes of a line: nothing where the command portion ends
/// inside a quote, and otherwise the command, its arguments and the redirect
/// targets.
pub open spec fn parse_of(s: Seq<char>) -> Option<ParsedView> {
    match tokens_of(command_portion(s)) {
        None => None,
        Some(words) => Some(
            ParsedView {
                command: command_of(words),
                args: args_of(words),
                redirect_info: redirects_of(s),
            },
        ),
    }
}

/// Parses one input line. Fails where a quote is opened and never closed.
pub fn parse_input(input: &String) -> (parsed: Option<ParsedData>)
    ensures
        is_parse_of(input@, parsed),
        parsed matches Some(p) ==> p.redirect_info.wf(),
{
    let redirect_info = parse_redirect(input);
    match tokenize(redirect_info.remaining.as_str()) {
        None => None,
        Some(words) => {
            let mut words = words;
            let ghost all = views(words@);
            let command = if words.len() > 0 {
                words.remove(0)
            } else {
                String::new()
            };
            assert(views(words@) =~= args_of(all));
            Some(ParsedData::new(command, words, redirect_info))
        },
    }
}

/// A line whose command portion ends inside a quote does not parse.
pub proof fn law_open_quote_fails_parse(line: Seq<char>)
    requires
        in_quote(scan(initial(), command_portion(line)).mode),
    ensures
        parse_of(line) is None,
{
}

/// A text without `>` has no redirect operator.
pub proof fn lemma_no_operator(s: Seq<char>, from: int)
    requires
        0 <= from <= s.len(),
        forall|j: int| from <= j < s.len() ==> s[j] != '>',
    ensures
        next_operator(s, from) == s.len(),
    decreases s.len() - from,
{
    if from < s.len() {
        lemma_no_operator(s, from + 1);
    }
}

/// A line without redirect operators in which a quote is opened outside
/// quotes and never closed does not parse: no words come out of it, not even
/// those before the quote.
pub proof fn law_unterminated_quote_fails_parse(before: Seq<char>, quote: char, rest: Seq<char>)
    requires
        quote == '\'' || quote == '"',
        scan(initial(), before).mode is Bare,
        forall|j: int| 0 <= j < rest.len() ==> rest[j] != quote,
        forall|j: int| 0 <= j < before.len() ==> before[j] != '>',
        forall|j: int| 0 <= j < rest.len() ==> rest[j] != '>',
    ensures
        parse_of(before + seq![quote] + rest) is None,
{
    let line = before + seq![quote] + rest;
    lemma_no_operator(line, 0);
    assert(command_portion(line) =~= before + seq![quote] + (rest + seq!['\n']));
    if quote == '\'' {
        law_unterminated_single_quote(before, rest + seq!['\n']);
    } else {
        law_unterminated_double_quote(before, rest + seq!['\n']);
    }
}

/// That `parsed` is what parsing makes of `line`.
pub open spec fn is_parse_of(line: Seq<char>, parsed: Option<ParsedData>) -> bool {
    match parsed {
        Some(p) => parse_of(line) == Some(p@),
        None => parse_of(line) is None,
    }
}

/// Parsing depends on the characters of the line and on nothing else: two
/// parses of the same characters both fail or both succeed, and where they
/// succeed they have the same command, arguments and redirects.
pub proof fn law_parse_is_repeatable(
    line: Seq<char>,
    first: Option<ParsedData>,
    second: Option<ParsedData>,
)
    requires
        is_parse_of(line, first),
        is_parse_of(line, second),
    ensures
        first is None <==> second is None,
        first is Some && second is Some ==> first->0@ == second->0@,
{
}

} // verus!
