//! The builtin commands and the search for executables.
//!
//! The builtins read nothing from the process: the working directory, the
//! home directory and the contents of the search path's directories are
//! handed in as plain values.

use vstd::prelude::*;
use vstd::hash_map::StringHashMap;
use crate::error::{ErrorKind, ErrorView, ShellError};
use crate::text::{chars_of, join, string_from_chars, views};

verus! {

/// The commands that the shell runs itself.
#[derive(Clone, Copy, Debug, PartialEq, Eq)]
pub enum Builtin {
    Exit,
    Echo,
    Type,
    Pwd,
    Cd,
}

/// The builtins by name.
pub open spec fn builtin_table() -> Map<Seq<char>, Builtin> {
    map![
        "exit"@ => Builtin::Exit,
        "echo"@ => Builtin::Echo,
        "type"@ => Builtin::Type,
        "pwd"@ => Builtin::Pwd,
        "cd"@ => Builtin::Cd,
    ]
}

/// The table has exactly the five names, each with its own builtin.
pub proof fn law_builtin_table()
    ensures
        builtin_table().dom() =~= set!["exit"@, "echo"@, "type"@, "pwd"@, "cd"@],
        builtin_table()["exit"@] == Builtin::Exit,
        builtin_table()["echo"@] == Builtin::Echo,
        builtin_table()["type"@] == Builtin::Type,
        builtin_table()["pwd"@] == Builtin::Pwd,
        builtin_table()["cd"@] == Builtin::Cd,
        builtin_table().dom().finite(),
        builtin_table().len() == 5,
{
    reveal_strlit("exit");
    reveal_strlit("echo");
    reveal_strlit("type");
    reveal_strlit("pwd");
    reveal_strlit("cd");
    assert("exit"@ != "echo"@) by {
        assert("exit"@[1] != "echo"@[1]);
    }
    assert("exit"@ != "type"@) by {
        assert("exit"@[0] != "type"@[0]);
    }
    assert("echo"@ != "type"@) by {
        assert("echo"@[0] != "type"@[0]);
    }
    assert("exit"@.len() == 4 && "echo"@.len() == 4 && "type"@.len() == 4);
    assert("pwd"@.len() == 3 && "cd"@.len() == 2);
    let names = set!["exit"@, "echo"@, "type"@, "pwd"@, "cd"@];
    assert(builtin_table().dom() =~= names);
    assert(names =~= Set::<Seq<char>>::empty().insert("exit"@).insert("echo"@).insert(
        "type"@,
    ).insert("pwd"@).insert("cd"@));
}

/// The builtin registry: a map from command names to builtins, made once and
/// never changed.
pub struct BuiltinRegistry {
    map: StringHashMap<Builtin>,
}

impl View for BuiltinRegistry {
    type V = Map<Seq<char>, Builtin>;

    closed spec fn view(&self) -> Map<Seq<char>, Builtin> {
        self.map@
    }
}

impl BuiltinRegistry {
    /// The builtin registered under `name`, if there is one.
    pub fn get(&self, name: &str) -> (found: Option<Builtin>)
        ensures
            found == (if self@.contains_key(name@) {
                Some(self@[name@])
            } else {
                None
            }),
    {
        match self.map.get(name) {
            Some(builtin) => Some(*builtin),
            None => None,
        }
    }

    /// Whether a builtin is registered under `name`.
    pub fn contains_key(&self, name: &str) -> (found: bool)
        ensures
            found == self@.contains_key(name@),
    {
        self.map.contains_key(name)
    }
}

/// Builds the registry of the five builtins.
pub fn build_commands() -> (commands: BuiltinRegistry)
    ensures
        commands@ == builtin_table(),
{
    let mut map: StringHashMap<Builtin> = StringHashMap::new();
    map.insert(String::from_str("exit"), Builtin::Exit);
    map.insert(String::from_str("echo"), Builtin::Echo);
    map.insert(String::from_str("type"), Builtin::Type);
    map.insert(String::from_str("pwd"), Builtin::Pwd);
    map.insert(String::from_str("cd"), Builtin::Cd);
    BuiltinRegistry { map }
}

/// What `echo` prints: its arguments joined by single spaces, and a newline.
pub open spec fn echo_text(args: Seq<Seq<char>>) -> Seq<char> {
    join(args, ' ') + seq!['\n']
}

/// The `echo` builtin: prints its arguments joined by single spaces,
/// followed by a newline. It never fails.
pub fn handle_echo(args: Vec<String>) -> (result: Result<String, ShellError>)
    ensures
        result matches Ok(text) && text@ == echo_text(views(args@)),
{
    let mut text = String::new();
    let mut i: usize = 0;
    while i < args.len()
        invariant
            i <= args.len(),
            text@ == join(views(args@).take(i as int), ' '),
        decreases args.len() - i,
    {
        proof {
            reveal_strlit(" ");
            let next = views(args@).take(i + 1);
            assert(next.drop_last() =~= views(args@).take(i as int));
            assert(" "@ =~= seq![' ']);
            assert(Seq::<char>::empty() + args@[i as int]@ =~= args@[i as int]@);
        }
        if i > 0 {
            text.append(" ");
        }
        text.append(args[i].as_str());
        i += 1;
    }
    proof {
        reveal_strlit("\n");
        assert("\n"@ =~= seq!['\n']);
        assert(views(args@).take(args.len() as int) =~= views(args@));
    }
    text.append("\n");
    Ok(text)
}

/// The session's state: the working directory and the home directory.
#[derive(Debug)]
pub struct ShellContext {
    pub cwd: String,
    pub home: String,
}

/// What `pwd` prints: the working directory and a newline.
pub open spec fn pwd_text(cwd: Seq<char>) -> Seq<char> {
    cwd + seq!['\n']
}

/// The `pwd` builtin: prints the working directory, followed by a newline.
/// It never fails and reads no argument.
pub fn handle_pwd(context: &ShellContext) -> (result: Result<String, ShellError>)
    ensures
        result matches Ok(text) && text@ == pwd_text(context.cwd@),
{
    proof {
        reveal_strlit("\n");
        assert("\n"@ =~= seq!['\n']);
    }
    let mut text = context.cwd.clone();
    text.append("\n");
    Ok(text)
}

/// The directory that `cd` is to enter: the home directory where there is no
/// argument or the first argument is `~`, and otherwise the first argument
/// as it is.
pub open spec fn cd_target_of(args: Seq<Seq<char>>, home: Seq<char>) -> Seq<char> {
    if args.len() == 0 || args[0] == seq!['~'] {
        home
    } else {
        args[0]
    }
}

/// Picks the directory that `cd` is to enter.
pub fn cd_target(args: &Vec<String>, context: &ShellContext) -> (path: String)
    ensures
        path@ == cd_target_of(views(args@), context.home@),
{
    if args.len() == 0 {
        return context.home.clone();
    }
    proof {
        reveal_strlit("~");
        assert("~"@ =~= seq!['~']);
    }
    let tilde = String::from_str("~");
    if args[0] == tilde {
        context.home.clone()
    } else {
        args[0].clone()
    }
}

/// How the attempt to enter a directory ended.
#[derive(Debug)]
pub enum CdAttempt {
    /// The directory was entered; this is the working directory now.
    Entered(String),
    /// The path does not exist.
    Missing,
    /// The path exists and could not be entered; this is what the system
    /// said.
    Refused(String),
}

/// The message for a `cd` to a path that does not exist.
pub open spec fn cd_missing_text(path: Seq<char>) -> Seq<char> {
    "cd: "@ + path + ": No such file or directory"@
}

/// The `cd` builtin, after the attempt to enter `path`: on success the
/// context's working directory is the one entered and nothing is printed;
/// otherwise the working directory stays, and the error names the missing
/// path or hands on what the system said.
pub fn handle_cd(context: &mut ShellContext, path: &str, attempt: CdAttempt) -> (result: Result<
    String,
    ShellError,
>)
    ensures
        final(context).home == old(context).home,
        match attempt {
            CdAttempt::Entered(dir) => {
                &&& final(context).cwd == dir
                &&& result matches Ok(text)
                &&& text@ == Seq::<char>::empty()
            },
            CdAttempt::Missing => {
                &&& final(context).cwd == old(context).cwd
                &&& result matches Err(e)
                &&& e@ == (ErrorView { kind: ErrorKind::NotFound, message: cd_missing_text(path@) })
            },
            CdAttempt::Refused(reason) => {
                &&& final(context).cwd == old(context).cwd
                &&& result matches Err(e)
                &&& e@ == (ErrorView { kind: ErrorKind::Resource, message: reason@ })
            },
        },
{
    match attempt {
        CdAttempt::Entered(dir) => {
            context.cwd = dir;
            Ok(String::new())
        },
        CdAttempt::Missing => {
            let mut message = String::from_str("cd: ");
            message.append(path);
            message.append(": No such file or directory");
            Err(ShellError { kind: ErrorKind::NotFound, message })
        },
        CdAttempt::Refused(reason) => Err(ShellError { kind: ErrorKind::Resource, message: reason }),
    }
}

/// One entry of a directory: its file name and its full path.
#[derive(Debug)]
pub struct PathEntry {
    pub name: String,
    pub path: String,
}

/// The mathematical value of a [`PathEntry`].
pub struct EntryView {
    pub name: Seq<char>,
    pub path: Seq<char>,
}

impl View for PathEntry {
    type V = EntryView;

    open spec fn view(&self) -> EntryView {
        EntryView { name: self.name@, path: self.path@ }
    }
}

/// The entries of one directory of the search path, in the order in which
/// the directory lists them. A directory that cannot be read has no entries.
#[derive(Debug)]
pub struct DirListing {
    pub entries: Vec<PathEntry>,
}

impl View for DirListing {
    type V = Seq<EntryView>;

    open spec fn view(&self) -> Seq<EntryView> {
        Seq::new(self.entries@.len(), |i: int| self.entries@[i]@)
    }
}

/// The listings of the search path's directories, in the path's order.
pub open spec fn listings(dirs: Seq<DirListing>) -> Seq<Seq<EntryView>> {
    Seq::new(dirs.len(), |i: int| dirs[i]@)
}

/// The place of the first entry from `from` on whose name is `name`, or the
/// number of entries where there is none.
pub open spec fn first_match(entries: Seq<EntryView>, name: Seq<char>, from: int) -> int
    decreases entries.len() - from,
{
    if from < 0 || from >= entries.len() {
        entries.len() as int
    } else if entries[from].name == name {
        from
    } else {
        first_match(entries, name, from + 1)
    }
}

/// The path of the first entry named `name` in the first directory, from
/// `from` on, that has one.
pub open spec fn search_from(dirs: Seq<Seq<EntryView>>, name: Seq<char>, from: int) -> Option<
    Seq<char>,
>
    decreases dirs.len() - from,
{
    if from < 0 || from >= dirs.len() {
        None
    } else {
        let at = first_match(dirs[from], name, 0);
        if at < dirs[from].len() {
            Some(dirs[from][at].path)
        } else {
            search_from(dirs, name, from + 1)
        }
    }
}

/// The executable that the search path gives for `name`: the path of the
/// first entry with exactly that name in the first directory that has one.
pub open spec fn search(dirs: Seq<Seq<EntryView>>, name: Seq<char>) -> Option<Seq<char>> {
    search_from(dirs, name, 0)
}

/// The search finds something exactly where some directory has an entry of
/// that name, and what it finds is such an entry's path, with no match in
/// an earlier directory nor earlier in the same directory.
pub proof fn law_search_finds_first(dirs: Seq<Seq<EntryView>>, name: Seq<char>)
    ensures
        search(dirs, name) is None <==> forall|d: int, e: int|
            0 <= d < dirs.len() && 0 <= e < dirs[d].len() ==> dirs[d][e].name != name,
        search(dirs, name) matches Some(path) ==> exists|d: int, e: int|
            {
                &&& 0 <= d < dirs.len() && 0 <= e < dirs[d].len()
                &&& dirs[d][e].name == name && dirs[d][e].path == path
                &&& forall|d2: int, e2: int|
                    0 <= d2 < d && 0 <= e2 < dirs[d2].len() ==> dirs[d2][e2].name != name
                &&& forall|e2: int| 0 <= e2 < e ==> dirs[d][e2].name != name
            },
{
    lemma_search_from(dirs, name, 0);
}

proof fn lemma_first_match(entries: Seq<EntryView>, name: Seq<char>, from: int)
    requires
        0 <= from <= entries.len(),
    ensures
        from <= first_match(entries, name, from) <= entries.len(),
        first_match(entries, name, from) < entries.len() ==> entries[first_match(
            entries,
            name,
            from,
        )].name == name,
        forall|e: int| from <= e < first_match(entries, name, from) ==> entries[e].name != name,
    decreases entries.len() - from,
{
    if from < entries.len() && entries[from].name != name {
        lemma_first_match(entries, name, from + 1);
    }
}

proof fn lemma_search_from(dirs: Seq<Seq<EntryView>>, name: Seq<char>, from: int)
    requires
        0 <= from <= dirs.len(),
    ensures
        search_from(dirs, name, from) is None <==> forall|d: int, e: int|
            from <= d < dirs.len() && 0 <= e < dirs[d].len() ==> dirs[d][e].name != name,
        search_from(dirs, name, from) matches Some(path) ==> exists|d: int, e: int|
            {
                &&& from <= d < dirs.len() && 0 <= e < dirs[d].len()
                &&& dirs[d][e].name == name && dirs[d][e].path == path
                &&& forall|d2: int, e2: int|
                    from <= d2 < d && 0 <= e2 < dirs[d2].len() ==> dirs[d2][e2].name != name
                &&& forall|e2: int| 0 <= e2 < e ==> dirs[d][e2].name != name
            },
    decreases dirs.len() - from,
{
    if from < dirs.len() {
        lemma_first_match(dirs[from], name, 0);
        let at = first_match(dirs[from], name, 0);
        if at < dirs[from].len() {
            assert(dirs[from][at].name == name);
        } else {
            lemma_search_from(dirs, name, from + 1);
            if search_from(dirs, name, from + 1) is Some {
                let path = search_from(dirs, name, from + 1)->0;
                let (d, e) = choose|d: int, e: int|
                    {
                        &&& from + 1 <= d < dirs.len() && 0 <= e < dirs[d].len()
                        &&& dirs[d][e].name == name && dirs[d][e].path == path
                        &&& forall|d2: int, e2: int|
                            from + 1 <= d2 < d && 0 <= e2 < dirs[d2].len() ==> dirs[d2][e2].name
                                != name
                        &&& forall|e2: int| 0 <= e2 < e ==> dirs[d][e2].name != name
                    };
                assert(forall|d2: int, e2: int|
                    from <= d2 < d && 0 <= e2 < dirs[d2].len() ==> dirs[d2][e2].name != name);
            }
        }
    }
}

/// Searches the listed directories, in order, for an entry named exactly
/// `command`, and returns the path of the first one.
pub fn search_in_path(command: &str, dirs: &Vec<DirListing>) -> (found: Option<String>)
    ensures
        match found {
            Some(path) => search(listings(dirs@), command@) == Some(path@),
            None => search(listings(dirs@), command@) is None,
        },
{
    let wanted = String::from_str(command);
    let ghost all = listings(dirs@);
    let mut d: usize = 0;
    while d < dirs.len()
        invariant
            d <= dirs.len(),
            all == listings(dirs@),
            wanted@ == command@,
            search(all, command@) == search_from(all, command@, d as int),
        decreases dirs.len() - d,
    {
        let entries = &dirs[d].entries;
        let ghost listing = all[d as int];
        let mut e: usize = 0;
        while e < entries.len()
            invariant
                e <= entries.len(),
                d < dirs.len(),
                entries == dirs@[d as int].entries,
                all == listings(dirs@),
                listing == all[d as int],
                wanted@ == command@,
                search(all, command@) == search_from(all, command@, d as int),
                first_match(listing, command@, 0) == first_match(listing, command@, e as int),
            decreases entries.len() - e,
        {
            if entries[e].name == wanted {
                return Some(entries[e].path.clone());
            }
            e += 1;
        }
        d += 1;
    }
    None
}

/// The pieces of `s` between the occurrences of `separator`; `n`
/// separators give `n + 1` pieces, some of which may be empty.
pub open spec fn split_on(s: Seq<char>, separator: char) -> Seq<Seq<char>>
    decreases s.len(),
{
    if s.len() == 0 {
        seq![Seq::empty()]
    } else {
        let before = split_on(s.drop_last(), separator);
        if s.last() == separator {
            before.push(Seq::empty())
        } else {
            before.drop_last().push(before.last().push(s.last()))
        }
    }
}

/// Splitting at a separator leaves it in no piece, and joining the pieces
/// with it gives the text back.
pub proof fn law_split_rejoins(s: Seq<char>, separator: char)
    ensures
        split_on(s, separator).len() > 0,
        join(split_on(s, separator), separator) == s,
        forall|i: int, j: int|
            0 <= i < split_on(s, separator).len() && 0 <= j < split_on(s, separator)[i].len()
                ==> split_on(s, separator)[i][j] != separator,
    decreases s.len(),
{
    if s.len() > 0 {
        let before = split_on(s.drop_last(), separator);
        let pieces = split_on(s, separator);
        law_split_rejoins(s.drop_last(), separator);
        if s.last() == separator {
            assert(pieces.drop_last() =~= before);
            assert(join(pieces, separator) =~= s);
        } else if before.len() == 1 {
            assert(join(pieces, separator) =~= s);
        } else {
            let init = join(before.drop_last(), separator);
            assert(pieces.drop_last() =~= before.drop_last());
            assert(join(before, separator) == init + seq![separator] + before.last());
            assert(join(pieces, separator) == init + seq![separator] + pieces.last());
            assert(s =~= s.drop_last().push(s.last()));
            assert(join(pieces, separator) =~= s);
        }
    }
}

/// The directories of a search path: none where the path is unset, and
/// otherwise the pieces between its colons.
pub open spec fn search_directories_of(path: Option<Seq<char>>) -> Seq<Seq<char>> {
    match path {
        Some(p) => split_on(p, ':'),
        None => Seq::empty(),
    }
}

/// Lists the directories that a search path names, in its order.
pub fn search_directories(path: &Option<String>) -> (dirs: Vec<String>)
    ensures
        views(dirs@) == search_directories_of(
            match path {
                Some(p) => Some(p@),
                None => None,
            },
        ),
{
    let mut dirs: Vec<String> = Vec::new();
    let text = match path {
        Some(p) => p,
        None => {
            assert(views(dirs@) =~= Seq::<Seq<char>>::empty());
            return dirs;
        },
    };
    let chars = chars_of(text.as_str());
    let ghost s = chars@;
    let mut piece: Vec<char> = Vec::new();
    let mut i: usize = 0;
    assert(s.take(0) =~= Seq::<char>::empty());
    assert(views(dirs@).push(piece@) =~= seq![Seq::<char>::empty()]);
    while i < chars.len()
        invariant
            i <= chars.len(),
            s == chars@,
            views(dirs@).push(piece@) == split_on(s.take(i as int), ':'),
        decreases chars.len() - i,
    {
        let c = chars[i];
        proof {
            assert(s.take(i + 1).drop_last() =~= s.take(i as int));
            assert(views(dirs@).push(piece@).drop_last() =~= views(dirs@));
        }
        if c == ':' {
            let ghost before = views(dirs@);
            let ghost done = piece@;
            dirs.push(string_from_chars(&piece));
            piece.clear();
            assert(views(dirs@) =~= before.push(done));
        } else {
            piece.push(c);
        }
        i += 1;
    }
    proof {
        assert(s.take(chars.len() as int) =~= s);
    }
    let ghost before = views(dirs@);
    dirs.push(string_from_chars(&piece));
    assert(views(dirs@) =~= before.push(piece@));
    dirs
}

/// The name that `type` is asked about: its first argument, and the empty
/// name where it has none.
pub open spec fn type_subject(args: Seq<Seq<char>>) -> Seq<char> {
    if args.len() > 0 {
        args[0]
    } else {
        Seq::empty()
    }
}

/// The name that `type` has to look for on the search path: its subject,
/// unless that is a builtin's name, which needs no search.
pub fn type_lookup(args: &Vec<String>) -> (name: Option<String>)
    ensures
        name is None <==> builtin_table().contains_key(type_subject(views(args@))),
        name matches Some(n) ==> n@ == type_subject(views(args@)),
{
    let subject = if args.len() > 0 {
        args[0].clone()
    } else {
        String::new()
    };
    if build_commands().contains_key(subject.as_str()) {
        None
    } else {
        Some(subject)
    }
}

/// What `type` prints for a builtin.
pub open spec fn type_builtin_text(name: Seq<char>) -> Seq<char> {
    name + " is a shell builtin\n"@
}

/// What `type` prints for an executable on the search path.
pub open spec fn type_external_text(name: Seq<char>, path: Seq<char>) -> Seq<char> {
    name + " is "@ + path + seq!['\n']
}

/// The message of `type` for a name that is neither.
pub open spec fn type_missing_text(name: Seq<char>) -> Seq<char> {
    name + ": not found"@
}

/// The `type` builtin. `located` is the resolved path of the name's
/// executable on the search path, if it has one. A builtin's name is
/// reported as a builtin whatever the search path holds; another name is
/// reported with its path; a name that is neither is an error.
pub fn handle_type(args: Vec<String>, located: Option<String>) -> (result: Result<
    String,
    ShellError,
>)
    ensures
        ({
            let name = type_subject(views(args@));
            if builtin_table().contains_key(name) {
                result matches Ok(text) && text@ == type_builtin_text(name)
            } else {
                match located {
                    Some(path) => result matches Ok(text) && text@ == type_external_text(
                        name,
                        path@,
                    ),
                    None => result matches Err(e) && e@ == (ErrorView {
                        kind: ErrorKind::NotFound,
                        message: type_missing_text(name),
                    }),
                }
            }
        }),
{
    let known_commands = build_commands();
    let mut text = if args.len() > 0 {
        args[0].clone()
    } else {
        String::new()
    };
    if known_commands.contains_key(text.as_str()) {
        text.append(" is a shell builtin\n");
        return Ok(text);
    }
    match located {
        Some(path) => {
            proof {
                reveal_strlit("\n");
                assert("\n"@ =~= seq!['\n']);
            }
            text.append(" is ");
            text.append(path.as_str());
            text.append("\n");
            Ok(text)
        },
        None => {
            text.append(": not found");
            Err(ShellError { kind: ErrorKind::NotFound, message: text })
        },
    }
}

} // verus!
