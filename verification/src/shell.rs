//! Rules of the command shell and of the login dialogue: how arguments are
//! read, how a login answer is classified, and how running instances are found
//! and shown. The shell itself, which prompts and prints, is not part of the
//! library.

use crate::text::spec_decimal;
use vstd::prelude::*;
use vstd::string::StringExecFns;

verus! {

/// How the login service answered, by the `success` member of its answer.
#[derive(Debug, PartialEq, Eq, Structural, Clone, Copy)]
pub enum Success {
    /// `true`: the login is granted.
    Granted,
    /// `delayed`: the login is queued, and is asked for again after a pause.
    Delayed,
    /// `partial`: a second factor is asked for.
    Partial,
    /// `false`: the login is denied.
    Denied,
    /// Any other text, which is an error.
    Unexpected,
}

/// The meaning of a `success` text.
pub open spec fn spec_classify_success(text: Seq<char>) -> Success {
    if text == "true"@ {
        Success::Granted
    } else if text == "delayed"@ {
        Success::Delayed
    } else if text == "partial"@ {
        Success::Partial
    } else if text == "false"@ {
        Success::Denied
    } else {
        Success::Unexpected
    }
}

/// Whether two texts are the same.
fn same_text(a: &str, b: &str) -> (same: bool)
    ensures
        same == (a@ == b@),
{
    String::from_str(a) == String::from_str(b)
}

/// Classifies the `success` text of a login answer.
pub fn classify_success(text: &str) -> (success: Success)
    ensures
        success == spec_classify_success(text@),
{
    if same_text(text, "true") {
        Success::Granted
    } else if same_text(text, "delayed") {
        Success::Delayed
    } else if same_text(text, "partial") {
        Success::Partial
    } else if same_text(text, "false") {
        Success::Denied
    } else {
        Success::Unexpected
    }
}

/// The `success` text that stands for a boolean `success` member.
pub fn success_text(granted: bool) -> (text: &'static str)
    ensures
        text@ == (if granted {
            "true"@
        } else {
            "false"@
        }),
{
    if granted {
        "true"
    } else {
        "false"
    }
}

/// Whether an argument of the login command is the flag that keeps a login
/// from being saved.
pub open spec fn is_no_save(arg: Seq<char>) -> bool {
    arg == "-n"@ || arg == "--no-save"@
}

/// The views of a list of texts.
pub open spec fn texts(list: Seq<String>) -> Seq<Seq<char>> {
    list.map_values(|s: String| s@)
}

/// Reads the arguments of the login command: every argument but the no-save
/// flag is a username, in the order given, and the flag may stand anywhere.
pub fn split_login_args(argv: &Vec<String>) -> (res: (Vec<String>, bool))
    ensures
        texts(res.0@) == texts(argv@).filter(|arg: Seq<char>| !is_no_save(arg)),
        res.1 == exists|i: int| 0 <= i < argv@.len() && is_no_save(#[trigger] argv@[i]@),
{
    let ghost keep = |arg: Seq<char>| !is_no_save(arg);
    let ghost all = texts(argv@);
    let mut usernames: Vec<String> = Vec::new();
    let mut no_save = false;
    let mut i: usize = 0;
    assert(all.take(0) =~= Seq::<Seq<char>>::empty());
    assert(texts(usernames@) =~= Seq::<Seq<char>>::empty());
    while i < argv.len()
        invariant
            i <= argv@.len(),
            all == texts(argv@),
            keep == |arg: Seq<char>| !is_no_save(arg),
            texts(usernames@) == all.take(i as int).filter(keep),
            no_save == exists|j: int| 0 <= j < i && is_no_save(#[trigger] argv@[j]@),
        decreases argv@.len() - i,
    {
        let ghost upto = all.take(i + 1);
        let ghost before = texts(usernames@);
        proof {
            assert(upto.drop_last() =~= all.take(i as int));
            assert(upto.last() == argv@[i as int]@);
            reveal(Seq::filter);
        }
        let arg = &argv[i];
        if same_text(arg.as_str(), "-n") || same_text(arg.as_str(), "--no-save") {
            no_save = true;
        } else {
            usernames.push(arg.clone());
            assert(texts(usernames@) =~= before.push(arg@));
        }
        i += 1;
    }
    assert(all.take(i as int) =~= all);
    (usernames, no_save)
}

/// Whether an argument of the update command asks for a dry run.
pub open spec fn is_dry_flag(arg: Seq<char>) -> bool {
    arg == "-y"@ || arg == "--dry-update"@
}

/// The index of the first argument that is no dry-run flag.
pub open spec fn first_unexpected(argv: Seq<Seq<char>>) -> Option<int>
    decreases argv.len(),
{
    if argv.len() == 0 {
        None
    } else {
        match first_unexpected(argv.drop_last()) {
            Some(i) => Some(i),
            None => if is_dry_flag(argv.last()) {
                None
            } else {
                Some(argv.len() - 1)
            },
        }
    }
}

/// Reads the arguments of the update command: whether a dry run is asked for,
/// or the index of the first argument that the command does not know.
pub fn read_update_args(argv: &Vec<String>) -> (res: Result<bool, usize>)
    ensures
        match res {
            Ok(dry) => first_unexpected(texts(argv@)) is None && dry == (argv@.len() > 0),
            Err(i) => first_unexpected(texts(argv@)) == Some(i as int) && i < argv@.len()
                && !is_dry_flag(argv@[i as int]@),
        },
{
    let ghost all = texts(argv@);
    let mut i: usize = 0;
    assert(all.take(0) =~= Seq::<Seq<char>>::empty());
    while i < argv.len()
        invariant
            i <= argv@.len(),
            all == texts(argv@),
            first_unexpected(all.take(i as int)) is None,
        decreases argv@.len() - i,
    {
        let ghost upto = all.take(i + 1);
        proof {
            assert(upto.drop_last() =~= all.take(i as int));
            assert(upto.last() == argv@[i as int]@);
        }
        let arg = &argv[i];
        if !(same_text(arg.as_str(), "-y") || same_text(arg.as_str(), "--dry-update")) {
            proof {
                unexpected_stays_first(all, i + 1);
            }
            return Err(i);
        }
        i += 1;
    }
    assert(all.take(i as int) =~= all);
    Ok(argv.len() > 0)
}

/// Once a prefix holds an unexpected argument, the first of the whole list is
/// the first of the prefix.
proof fn unexpected_stays_first(argv: Seq<Seq<char>>, n: int)
    requires
        0 <= n <= argv.len(),
        first_unexpected(argv.take(n)) is Some,
    ensures
        first_unexpected(argv) == first_unexpected(argv.take(n)),
    decreases argv.len() - n,
{
    if n < argv.len() {
        assert(argv.take(n + 1).drop_last() =~= argv.take(n));
        unexpected_stays_first(argv, n + 1);
    } else {
        assert(argv.take(n) =~= argv);
    }
}

/// What is kept for an account: the password where passwords are stored,
/// nothing but the name where they are not.
pub fn account_secret(store_passwords: bool, password: String) -> (kept: Option<String>)
    ensures
        kept == (if store_passwords {
            Some(password)
        } else {
            None
        }),
{
    if store_passwords {
        Some(password)
    } else {
        None
    }
}

/// A running instance of the game, as far as the shell tells instances apart.
#[derive(Debug)]
pub struct Instance {
    pub username: String,
    pub pid: u32,
}

/// The index of the first instance with the given process id.
pub open spec fn first_with_pid(instances: Seq<Instance>, pid: u32) -> Option<int>
    decreases instances.len(),
{
    if instances.len() == 0 {
        None
    } else {
        match first_with_pid(instances.drop_last(), pid) {
            Some(i) => Some(i),
            None => if instances.last().pid == pid {
                Some(instances.len() - 1)
            } else {
                None
            },
        }
    }
}

/// The index of the first instance with the given username.
pub open spec fn first_with_name(instances: Seq<Instance>, name: Seq<char>) -> Option<int>
    decreases instances.len(),
{
    if instances.len() == 0 {
        None
    } else {
        match first_with_name(instances.drop_last(), name) {
            Some(i) => Some(i),
            None => if instances.last().username@ == name {
                Some(instances.len() - 1)
            } else {
                None
            },
        }
    }
}

/// The instance that an argument names: where the argument is a number, the
/// first instance with that process id; where there is none, or the argument is
/// no number, the first instance with the argument as its username.
pub open spec fn spec_find_instance(
    instances: Seq<Instance>,
    arg: Seq<char>,
    pid: Option<u32>,
) -> Option<int> {
    match pid {
        Some(p) => match first_with_pid(instances, p) {
            Some(i) => Some(i),
            None => first_with_name(instances, arg),
        },
        None => first_with_name(instances, arg),
    }
}

/// Once a prefix holds an instance with the process id, the first of the whole
/// list is the first of the prefix.
proof fn pid_stays_first(instances: Seq<Instance>, pid: u32, n: int)
    requires
        0 <= n <= instances.len(),
        first_with_pid(instances.take(n), pid) is Some,
    ensures
        first_with_pid(instances, pid) == first_with_pid(instances.take(n), pid),
    decreases instances.len() - n,
{
    if n < instances.len() {
        assert(instances.take(n + 1).drop_last() =~= instances.take(n));
        pid_stays_first(instances, pid, n + 1);
    } else {
        assert(instances.take(n) =~= instances);
    }
}

/// Once a prefix holds an instance with the username, the first of the whole
/// list is the first of the prefix.
proof fn name_stays_first(instances: Seq<Instance>, name: Seq<char>, n: int)
    requires
        0 <= n <= instances.len(),
        first_with_name(instances.take(n), name) is Some,
    ensures
        first_with_name(instances, name) == first_with_name(instances.take(n), name),
    decreases instances.len() - n,
{
    if n < instances.len() {
        assert(instances.take(n + 1).drop_last() =~= instances.take(n));
        name_stays_first(instances, name, n + 1);
    } else {
        assert(instances.take(n) =~= instances);
    }
}

/// Looks for the first instance with the given process id.
fn find_by_pid(instances: &Vec<Instance>, pid: u32) -> (found: Option<usize>)
    ensures
        match found {
            Some(i) => first_with_pid(instances@, pid) == Some(i as int) && i < instances@.len(),
            None => first_with_pid(instances@, pid) is None,
        },
{
    let mut i: usize = 0;
    assert(instances@.take(0) =~= Seq::<Instance>::empty());
    while i < instances.len()
        invariant
            i <= instances@.len(),
            first_with_pid(instances@.take(i as int), pid) is None,
        decreases instances@.len() - i,
    {
        let ghost upto = instances@.take(i + 1);
        proof {
            assert(upto.drop_last() =~= instances@.take(i as int));
            assert(upto.last() == instances@[i as int]);
        }
        if instances[i].pid == pid {
            proof {
                pid_stays_first(instances@, pid, i + 1);
            }
            return Some(i);
        }
        i += 1;
    }
    assert(instances@.take(i as int) =~= instances@);
    None
}

/// Looks for the first instance with the given username.
fn find_by_name(instances: &Vec<Instance>, name: &str) -> (found: Option<usize>)
    ensures
        match found {
            Some(i) => first_with_name(instances@, name@) == Some(i as int) && i
                < instances@.len(),
            None => first_with_name(instances@, name@) is None,
        },
{
    let mut i: usize = 0;
    assert(instances@.take(0) =~= Seq::<Instance>::empty());
    while i < instances.len()
        invariant
            i <= instances@.len(),
            first_with_name(instances@.take(i as int), name@) is None,
        decreases instances@.len() - i,
    {
        let ghost upto = instances@.take(i + 1);
        proof {
            assert(upto.drop_last() =~= instances@.take(i as int));
            assert(upto.last() == instances@[i as int]);
        }
        if same_text(instances[i].username.as_str(), name) {
            proof {
                name_stays_first(instances@, name@, i + 1);
            }
            return Some(i);
        }
        i += 1;
    }
    assert(instances@.take(i as int) =~= instances@);
    None
}

/// Finds the instance that the argument of the kill command names; `pid` is
/// the argument as a number, where it is one.
pub fn find_instance(
    instances: &Vec<Instance>,
    arg: &str,
    pid: Option<u32>,
) -> (found: Option<usize>)
    ensures
        match found {
            Some(i) => spec_find_instance(instances@, arg@, pid) == Some(i as int) && i
                < instances@.len(),
            None => spec_find_instance(instances@, arg@, pid) is None,
        },
{
    match pid {
        Some(p) => match find_by_pid(instances, p) {
            Some(i) => Some(i),
            None => find_by_name(instances, arg),
        },
        None => find_by_name(instances, arg),
    }
}

/// The number of decimal digits of a number.
pub fn count_decimal_digits(n: u32) -> (digits: usize)
    ensures
        digits == spec_decimal(n as nat).len(),
        1 <= digits <= 10,
{
    proof {
        reveal_with_fuel(spec_decimal, 11);
    }
    if n < 10 {
        1
    } else if n < 100 {
        2
    } else if n < 1_000 {
        3
    } else if n < 10_000 {
        4
    } else if n < 100_000 {
        5
    } else if n < 1_000_000 {
        6
    } else if n < 10_000_000 {
        7
    } else if n < 100_000_000 {
        8
    } else if n < 1_000_000_000 {
        9
    } else {
        10
    }
}

/// A time span in whole hours, minutes below 60 and seconds below 60.
pub struct Uptime {
    pub hours: u64,
    pub minutes: u64,
    pub seconds: u64,
}

/// Splits a number of seconds into hours, minutes and seconds.
pub fn split_uptime(uptime_sec: u64) -> (uptime: Uptime)
    ensures
        uptime.hours * 3600 + uptime.minutes * 60 + uptime.seconds == uptime_sec,
        uptime.minutes < 60,
        uptime.seconds < 60,
{
    Uptime {
        hours: uptime_sec / 3600,
        minutes: (uptime_sec / 60) % 60,
        seconds: uptime_sec % 60,
    }
}

/// The width of a column that holds a heading and entries of the given widths:
/// the greatest of them.
pub fn column_width(heading: usize, entries: &Vec<usize>) -> (width: usize)
    ensures
        width >= heading,
        forall|i: int| 0 <= i < entries@.len() ==> width >= entries@[i],
        width == heading || exists|i: int| 0 <= i < entries@.len() && width == entries@[i],
{
    let mut width: usize = heading;
    let mut i: usize = 0;
    while i < entries.len()
        invariant
            i <= entries@.len(),
            width >= heading,
            forall|j: int| 0 <= j < i ==> width >= entries@[j],
            width == heading || exists|j: int| 0 <= j < i && width == entries@[j],
        decreases entries@.len() - i,
    {
        if entries[i] > width {
            width = entries[i];
        }
        i += 1;
    }
    width
}

} // verus!
