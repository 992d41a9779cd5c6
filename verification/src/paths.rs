//! Which image paths the viewer was given, and which of them it shows.

use vstd::prelude::*;
use vstd::string::StrSliceExecFns;

verus! {

/// What a list of strings holds.
pub open spec fn texts(strings: Seq<String>) -> Seq<Seq<char>> {
    strings.map_values(|s: String| s@)
}

/// Whether the arguments are the single argument `-`, which asks for the
/// paths to be read from standard input.
pub open spec fn asks_for_stdin(arguments: Seq<Seq<char>>) -> bool {
    arguments.len() == 1 && arguments[0] == seq!['-']
}

/// The lines of `text`: what stands between its line feeds, before the first
/// and after the last. A text without a line feed is one line, the empty text
/// one empty line. A carriage return before a line feed stays in its line.
pub open spec fn lines_of(text: Seq<char>) -> Seq<Seq<char>>
    decreases text.len(),
{
    if text.len() == 0 {
        seq![Seq::empty()]
    } else {
        let before = lines_of(text.drop_last());
        if text.last() == '\n' {
            before.push(Seq::empty())
        } else {
            before.drop_last().push(before.last().push(text.last()))
        }
    }
}

/// The lines joined again, with a line feed between each two.
pub open spec fn joined_lines(lines: Seq<Seq<char>>) -> Seq<char>
    decreases lines.len(),
{
    if lines.len() == 0 {
        Seq::empty()
    } else if lines.len() == 1 {
        lines[0]
    } else {
        joined_lines(lines.drop_last()) + seq!['\n'] + lines.last()
    }
}

/// The image arguments: the lines of standard input where the arguments ask
/// for it, else the arguments themselves.
pub open spec fn image_arguments(arguments: Seq<Seq<char>>, stdin: Seq<char>) -> Seq<Seq<char>> {
    if asks_for_stdin(arguments) {
        lines_of(stdin)
    } else {
        arguments
    }
}

/// A text has at least one line, no line holds a line feed, and the lines
/// joined by line feeds are the text again.
pub proof fn lemma_lines_of(text: Seq<char>)
    ensures
        lines_of(text).len() >= 1,
        forall|i: int, j: int|
            0 <= i < lines_of(text).len() && 0 <= j < lines_of(text)[i].len()
                ==> #[trigger] lines_of(text)[i][j] != '\n',
        joined_lines(lines_of(text)) == text,
    decreases text.len(),
{
    if text.len() == 0 {
        assert(joined_lines(lines_of(text)) =~= text);
    } else {
        let rest = text.drop_last();
        let before = lines_of(rest);
        let lines = lines_of(text);
        lemma_lines_of(rest);
        if text.last() == '\n' {
            assert(lines.drop_last() =~= before);
            assert(joined_lines(lines) =~= text);
        } else {
            let line = before.last().push(text.last());
            assert(lines.last() == line);
            if before.len() == 1 {
                assert(joined_lines(lines) =~= text);
            } else {
                assert(lines.drop_last() =~= before.drop_last());
                assert(joined_lines(before) == joined_lines(before.drop_last()) + seq!['\n']
                    + before.last());
                assert(joined_lines(lines) == joined_lines(lines.drop_last()) + seq!['\n']
                    + lines.last());
                assert(joined_lines(lines) =~= rest.push(text.last()));
                assert(rest.push(text.last()) =~= text);
            }
        }
    }
}

/// Whether the arguments are the single argument `-`.
pub fn reads_paths_from_stdin(images: &Vec<String>) -> (asks: bool)
    ensures
        asks == asks_for_stdin(texts(images@)),
{
    if images.len() != 1 {
        return false;
    }
    let only = images[0].as_str();
    let asks = only.unicode_len() == 1 && only.get_char(0) == '-';
    assert(asks ==> only@ =~= seq!['-']);
    asks
}

/// Splits `input` at its line feeds.
pub fn split_lines(input: &str) -> (lines: Vec<String>)
    ensures
        texts(lines@) == lines_of(input@),
{
    let mut lines: Vec<String> = Vec::new();
    let mut current = String::new();
    assert(input@.take(0) =~= Seq::<char>::empty());
    assert(texts(lines@).push(current@) =~= lines_of(input@.take(0)));
    for c in it: input.chars()
        invariant
            it.seq() == input@,
            texts(lines@).push(current@) == lines_of(input@.take(it.index() as int)),
    {
        let ghost i = it.index() as int;
        let ghost done = texts(lines@);
        let ghost line = current@;
        proof {
            assert(input@.take(i + 1).drop_last() =~= input@.take(i));
            assert(input@.take(i + 1).last() == c);
            assert(done.push(line).drop_last() =~= done);
        }
        if c == '\n' {
            lines.push(current);
            current = String::new();
            assert(texts(lines@) =~= done.push(line));
        } else {
            current.push(c);
        }
    }
    assert(input@.take(input@.len() as int) =~= input@);
    let ghost done = texts(lines@);
    lines.push(current);
    assert(texts(lines@) =~= done.push(current@));
    lines
}

/// The image arguments: the lines of `stdin` where `images` is the single
/// argument `-`, else `images`.
pub fn read_image_arguments(images: Vec<String>, stdin: &str) -> (arguments: Vec<String>)
    ensures
        texts(arguments@) == image_arguments(texts(images@), stdin@),
{
    if reads_paths_from_stdin(&images) {
        split_lines(stdin)
    } else {
        images
    }
}

/// Whether `Path::is_relative` of `std` holds of the path written `path`, on
/// the platform the library is built for.
pub uninterp spec fn path_is_relative(path: Seq<char>) -> bool;

/// The path that `Path::join` of `std` makes of `base` and `path`, on the
/// platform the library is built for.
pub uninterp spec fn path_joined(base: Seq<char>, path: Seq<char>) -> Seq<char>;

/// Trusted: `Path::is_relative` of `std`. It looks at the text of the path
/// alone, never at the file system, so its result has a name; what the name
/// is for a given path is not claimed.
#[verifier::external_body]
fn is_relative(path: &str) -> (relative: bool)
    ensures
        relative == path_is_relative(path@),
{
    std::path::Path::new(path).is_relative()
}

/// Trusted: `Path::join` of `std`. It makes the joined path from the two
/// texts alone, never looking at the file system, so its result has a name;
/// what the name is for given paths is not claimed. Both parts being strings,
/// the joined path is one too.
#[verifier::external_body]
fn join(base: &str, path: &str) -> (joined: String)
    ensures
        joined@ == path_joined(base@, path@),
{
    std::path::Path::new(base).join(path).to_string_lossy().into_owned()
}

/// Where `path` points when the working directory is `cwd`: a relative path
/// is joined to `cwd`, any other path is itself.
pub open spec fn resolved_path(cwd: Seq<char>, path: Seq<char>) -> Seq<char> {
    if path_is_relative(path) {
        path_joined(cwd, path)
    } else {
        path
    }
}

/// Where `path` points. `relative` says whether the path is relative, `joined`
/// is the path joined to the working directory.
pub fn pick_resolved(path: &str, relative: bool, joined: String) -> (resolved: String)
    ensures
        resolved@ == if relative {
            joined@
        } else {
            path@
        },
{
    if relative {
        joined
    } else {
        path.to_owned()
    }
}

/// Resolves `path` against the working directory `cwd`.
pub fn resolve_path(cwd: &str, path: &str) -> (resolved: String)
    ensures
        resolved@ == resolved_path(cwd@, path@),
{
    let relative = is_relative(path);
    let joined = join(cwd, path);
    pick_resolved(path, relative, joined)
}

/// Resolves each of `paths` against the working directory `cwd`.
pub fn resolve_paths(cwd: &str, paths: &Vec<String>) -> (resolved: Vec<String>)
    ensures
        texts(resolved@) == texts(paths@).map_values(|p: Seq<char>| resolved_path(cwd@, p)),
{
    let mut resolved: Vec<String> = Vec::new();
    let mut i: usize = 0;
    while i < paths.len()
        invariant
            i <= paths@.len(),
            texts(resolved@) == texts(paths@).take(i as int).map_values(
                |p: Seq<char>| resolved_path(cwd@, p),
            ),
        decreases paths@.len() - i,
    {
        let ghost before = texts(resolved@);
        let path = resolve_path(cwd, paths[i].as_str());
        resolved.push(path);
        assert(texts(resolved@) =~= before.push(path@));
        assert(texts(paths@).take(i + 1).map_values(|p: Seq<char>| resolved_path(cwd@, p))
            =~= before.push(path@));
        i += 1;
    }
    assert(texts(paths@).take(i as int) =~= texts(paths@));
    resolved
}

/// A path, and whether a regular file was found there.
#[derive(Debug)]
pub struct PathCheck {
    pub path: String,
    pub is_file: bool,
}

/// What a `PathCheck` holds.
pub struct PathCheckView {
    pub path: Seq<char>,
    pub is_file: bool,
}

impl View for PathCheck {
    type V = PathCheckView;

    open spec fn view(&self) -> PathCheckView {
        PathCheckView { path: self.path@, is_file: self.is_file }
    }
}

/// What a list of `PathCheck`s holds.
pub open spec fn checks_view(checks: Seq<PathCheck>) -> Seq<PathCheckView> {
    checks.map_values(|c: PathCheck| c@)
}

/// The paths at which a regular file was found, in their order.
pub open spec fn files_among(checks: Seq<PathCheckView>) -> Seq<Seq<char>> {
    checks.filter(|c: PathCheckView| c.is_file).map_values(|c: PathCheckView| c.path)
}

/// The paths to show: those of `checks` at which a regular file was found.
/// Directories, missing paths and special files are left out without a word.
pub fn existing_files(checks: &Vec<PathCheck>) -> (files: Vec<String>)
    ensures
        texts(files@) == files_among(checks_view(checks@)),
{
    let ghost all = checks_view(checks@);
    let ghost is_file = |c: PathCheckView| c.is_file;
    let ghost path_of = |c: PathCheckView| c.path;
    let mut files: Vec<String> = Vec::new();
    let mut i: usize = 0;
    proof {
        reveal(Seq::filter);
        assert(all.take(0) =~= Seq::<PathCheckView>::empty());
        assert(texts(files@) =~= all.take(0).filter(is_file).map_values(path_of));
    }
    while i < checks.len()
        invariant
            i <= checks@.len(),
            all == checks_view(checks@),
            is_file == |c: PathCheckView| c.is_file,
            path_of == |c: PathCheckView| c.path,
            texts(files@) == all.take(i as int).filter(is_file).map_values(path_of),
        decreases checks@.len() - i,
    {
        let check = &checks[i];
        let ghost before = texts(files@);
        proof {
            reveal(Seq::filter);
            assert(all.take(i + 1).drop_last() =~= all.take(i as int));
            assert(all.take(i + 1).last() == check@);
        }
        if check.is_file {
            let path = check.path.clone();
            files.push(path);
            assert(texts(files@) =~= before.push(check@.path));
            assert(all.take(i + 1).filter(is_file).map_values(path_of) =~= before.push(
                check@.path,
            ));
        }
        i += 1;
    }
    assert(all.take(i as int) =~= all);
    files
}

} // verus!
