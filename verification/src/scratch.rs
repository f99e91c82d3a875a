//! The scratch copy of the package database: where it lies, the commands
//! that fill and query it, and what is kept of what they print.

use crate::commands::{DetectedAurHelper, ResolvedCommand, ResolvedCommandView};
use crate::paths::{joined, path_join};
use crate::text::{
    blank, chars_of, is_blank, join, lemma_blank_iff_trim_empty, lemma_join_push, line_at, lines,
    push_range, range_contains, scan_run, string_of, trim, trim_range, trimmed, CharClass,
};
use vstd::prelude::*;
use vstd::string::StringExecFns;

verus! {

/// `value` where it is set and not blank, else `fallback`.
pub open spec fn set_or(value: Option<Seq<char>>, fallback: Seq<char>) -> Seq<char> {
    if value is Some && !is_blank(value->0) {
        value->0
    } else {
        fallback
    }
}

/// Where the scratch database lies. A path that is set and not blank is
/// that place, without the white space around it. Else it is the directory
/// `checkup-db-` and the user's number, under the directory for temporary
/// files: `/tmp` and `0` stand in where one of the two is not set or blank.
pub open spec fn scratch_path(
    checkupdates_db: Option<Seq<char>>,
    tmpdir: Option<Seq<char>>,
    uid: Option<Seq<char>>,
) -> Seq<char> {
    if checkupdates_db is Some && !is_blank(checkupdates_db->0) {
        trim(checkupdates_db->0)
    } else {
        joined(set_or(tmpdir, "/tmp"@), "checkup-db-"@ + set_or(uid, "0"@))
    }
}

/// `value` where it is set and not blank, else `fallback`.
fn value_or<'a>(value: Option<&'a str>, fallback: &'a str) -> (r: &'a str)
    ensures
        r@ == set_or(value.deep_view(), fallback@),
{
    match value {
        Some(v) => if blank(v) {
            fallback
        } else {
            v
        },
        None => fallback,
    }
}

/// Where the scratch database lies, given what the environment sets: the
/// path of the scratch database, the directory for temporary files and the
/// user's number.
pub fn checkupdates_db_path_from_inputs(
    checkupdates_db: Option<&str>,
    tmpdir: Option<&str>,
    uid: Option<&str>,
) -> (path: String)
    ensures
        path@ == scratch_path(checkupdates_db.deep_view(), tmpdir.deep_view(), uid.deep_view()),
        checkupdates_db is Some && !is_blank(checkupdates_db->0@) ==> path@ == trim(
            checkupdates_db->0@,
        ),
{
    if let Some(raw) = checkupdates_db {
        let path = trimmed(raw);
        proof {
            lemma_blank_iff_trim_empty(raw@);
        }
        if path.as_str().unicode_len() > 0 {
            return path;
        }
    }
    let mut name = String::from_str("checkup-db-");
    name.append(value_or(uid, "0"));
    path_join(value_or(tmpdir, "/tmp"), name.as_str())
}

/// Where the package database lies if nothing else is known.
pub open spec fn default_db_path() -> Seq<char> {
    "/var/lib/pacman"@
}

/// The view of a command with the program `program` and the arguments
/// `args`.
pub open spec fn command(program: Seq<char>, args: Seq<Seq<char>>) -> ResolvedCommandView {
    ResolvedCommandView { program, args }
}

/// The command with the program `program` and the arguments `args`.
fn make_command(program: &str, args: Vec<String>) -> (cmd: ResolvedCommand)
    ensures
        cmd@ == command(program@, args.deep_view()),
{
    ResolvedCommand { program: String::from_str(program), args }
}

/// The command that asks the package manager where its database lies.
pub open spec fn db_path_query() -> ResolvedCommandView {
    command("pacman-conf"@, seq!["DBPath"@])
}

/// The command that brings the scratch database at `db_path` up to date,
/// without the rights of the administrator.
pub open spec fn sync(db_path: Seq<char>) -> ResolvedCommandView {
    command(
        "fakeroot"@,
        seq![
            "--"@,
            "pacman"@,
            "-Sy"@,
            "--disable-sandbox-filesystem"@,
            "--dbpath"@,
            db_path,
            "--logfile"@,
            "/dev/null"@,
        ],
    )
}

/// The command that lists the pending updates by the scratch database at
/// `db_path`.
pub open spec fn query(db_path: Seq<char>) -> ResolvedCommandView {
    command("pacman"@, seq!["-Qu"@, "--dbpath"@, db_path, "--color"@, "never"@])
}

/// The command that lists the pending updates of the user repository.
pub open spec fn aur_query(helper: DetectedAurHelper) -> ResolvedCommandView {
    command(helper.binary_name(), seq!["-Qua"@])
}

/// The command that asks the package manager where its database lies.
pub fn db_path_query_command() -> (cmd: ResolvedCommand)
    ensures
        cmd@ == db_path_query(),
{
    let args = vec![String::from_str("DBPath")];
    assert(args.deep_view() =~= seq!["DBPath"@]);
    make_command("pacman-conf", args)
}

/// The command that brings the scratch database at `db_path` up to date.
pub fn sync_command(db_path: &str) -> (cmd: ResolvedCommand)
    ensures
        cmd@ == sync(db_path@),
{
    let args = vec![
        String::from_str("--"),
        String::from_str("pacman"),
        String::from_str("-Sy"),
        String::from_str("--disable-sandbox-filesystem"),
        String::from_str("--dbpath"),
        String::from_str(db_path),
        String::from_str("--logfile"),
        String::from_str("/dev/null"),
    ];
    assert(args.deep_view() =~= sync(db_path@).args);
    make_command("fakeroot", args)
}

/// The command that lists the pending updates by the scratch database at
/// `db_path`.
pub fn query_command(db_path: &str) -> (cmd: ResolvedCommand)
    ensures
        cmd@ == query(db_path@),
{
    let args = vec![
        String::from_str("-Qu"),
        String::from_str("--dbpath"),
        String::from_str(db_path),
        String::from_str("--color"),
        String::from_str("never"),
    ];
    assert(args.deep_view() =~= query(db_path@).args);
    make_command("pacman", args)
}

/// The command that lists the pending updates of the user repository.
pub fn aur_query_command(helper: DetectedAurHelper) -> (cmd: ResolvedCommand)
    ensures
        cmd@ == aur_query(helper),
{
    let args = vec![String::from_str("-Qua")];
    assert(args.deep_view() =~= seq!["-Qua"@]);
    make_command(helper.binary(), args)
}

/// The first of `ls` that is not blank, without the white space around it.
pub open spec fn first_filled(ls: Seq<Seq<char>>) -> Option<Seq<char>>
    decreases ls.len(),
{
    if ls.len() == 0 {
        None
    } else if !is_blank(ls[0]) {
        Some(trim(ls[0]))
    } else {
        first_filled(ls.drop_first())
    }
}

/// The path that the package manager named as the place of its database:
/// the first line of its answer that is not blank.
pub fn reported_db_path(stdout: &str) -> (path: Option<String>)
    ensures
        path.deep_view() == first_filled(lines(stdout@)),
{
    let v = chars_of(stdout);
    let mut pos: usize = 0;
    assert(v@.skip(0) == v@);
    while pos < v.len()
        invariant
            pos <= v.len(),
            v@ == stdout@,
            first_filled(lines(v@)) == first_filled(lines(v@.skip(pos as int))),
        decreases v.len() - pos,
    {
        let (end, next) = line_at(&v, pos);
        let (a, b) = trim_range(&v, pos, end);
        proof {
            let line = v@.subrange(pos as int, end as int);
            let rest = lines(v@.skip(next as int));
            let all = seq![line] + rest;
            assert(all[0] == line);
            assert(all.drop_first() == rest);
            lemma_blank_iff_trim_empty(line);
        }
        if a < b {
            return Some(string_of(&v, a, b));
        }
        pos = next;
    }
    assert(lines(v@.skip(pos as int)) == Seq::<Seq<char>>::empty());
    None
}

/// Whether `line` is a note of the package manager and no update: it holds
/// an opening and a closing square bracket.
pub open spec fn is_note(line: Seq<char>) -> bool {
    line.contains('[') && line.contains(']')
}

/// Those of `ls` that may report an update: the ones that are neither
/// blank nor a note, in their order.
pub open spec fn kept(ls: Seq<Seq<char>>) -> Seq<Seq<char>>
    decreases ls.len(),
{
    if ls.len() == 0 {
        Seq::empty()
    } else if !is_blank(ls[0]) && !is_note(ls[0]) {
        seq![ls[0]] + kept(ls.drop_first())
    } else {
        kept(ls.drop_first())
    }
}

/// The listing `text` without its blank lines and its notes: the lines
/// that are left, with a line feed between each two.
pub open spec fn filtered(text: Seq<char>) -> Seq<char> {
    join(kept(lines(text)), "\n"@)
}

/// Drops from a listing of the package manager every blank line and every
/// line that holds both an opening and a closing square bracket.
pub fn filter_pacman_qu_output(stdout: &str) -> (r: String)
    ensures
        r@ == filtered(stdout@),
{
    let v = chars_of(stdout);
    let mut r = String::new();
    let ghost mut done: Seq<Seq<char>> = Seq::empty();
    let mut first = true;
    let mut pos: usize = 0;
    proof {
        assert(v@.skip(0) == v@);
        assert(done + kept(lines(v@)) == kept(lines(v@)));
        reveal_strlit("\n");
        assert("\n"@ =~= seq!['\n']);
    }
    while pos < v.len()
        invariant
            pos <= v.len(),
            v@ == stdout@,
            "\n"@ == seq!['\n'],
            first == (done.len() == 0),
            r@ == join(done, "\n"@),
            kept(lines(v@)) == done + kept(lines(v@.skip(pos as int))),
        decreases v.len() - pos,
    {
        let (end, next) = line_at(&v, pos);
        let ghost line = v@.subrange(pos as int, end as int);
        let ghost rest = lines(v@.skip(next as int));
        let filled = scan_run(&v, pos, end, CharClass::Space) < end;
        let note = range_contains(&v, pos, end, '[') && range_contains(&v, pos, end, ']');
        proof {
            let all = seq![line] + rest;
            assert(all[0] == line);
            assert(all.drop_first() == rest);
            lemma_blank_iff_trim_empty(line);
        }
        if filled && !note {
            if !first {
                r.push('\n');
            }
            let ghost before = r@;
            push_range(&mut r, &v, pos, end);
            proof {
                lemma_join_push(done, "\n"@, line);
                if done.len() > 0 {
                    assert(before == join(done, "\n"@) + seq!['\n']);
                } else {
                    assert(before + line == line);
                }
                assert(done + (seq![line] + kept(rest)) == done.push(line) + kept(rest));
                done = done.push(line);
            }
            first = false;
        }
        pos = next;
    }
    proof {
        assert(lines(v@.skip(pos as int)) == Seq::<Seq<char>>::empty());
        assert(done + Seq::<Seq<char>>::empty() == done);
    }
    r
}

} // verus!
