//! The arguments that all commands share, and how one command line is taken apart.

use crate::text;
use vstd::prelude::*;
use vstd::string::StringExecFns;

verus! {

/// The arguments that all commands share.
pub struct CommonArgs {
    pub workspace: String,
    pub json: bool,
    pub verbose: bool,
}

/// The model of the arguments that all commands share.
pub struct CommonModel {
    pub workspace: Seq<char>,
    pub json: bool,
    pub verbose: bool,
}

impl View for CommonArgs {
    type V = CommonModel;

    open spec fn view(&self) -> CommonModel {
        CommonModel { workspace: self.workspace@, json: self.json, verbose: self.verbose }
    }
}

/// What a command line asks for: a run, the help text, or nothing that can be done.
pub enum Parsed<A> {
    Run(A),
    Help,
    Reject(String),
}

/// The model of what a command line asks for.
pub enum ParsedModel<M> {
    Run(M),
    Help,
    Reject(Seq<char>),
}

impl<A: View> View for Parsed<A> {
    type V = ParsedModel<A::V>;

    open spec fn view(&self) -> ParsedModel<A::V> {
        match *self {
            Parsed::Run(args) => ParsedModel::Run(args@),
            Parsed::Help => ParsedModel::Help,
            Parsed::Reject(message) => ParsedModel::Reject(message@),
        }
    }
}

/// The position of the first argument that is `long` or `short`, or the number of arguments.
pub open spec fn first_equal(args: Seq<Seq<char>>, long: Seq<char>, short: Seq<char>) -> int
    decreases args.len(),
{
    if args.len() == 0 || args[0] == long || args[0] == short {
        0
    } else {
        1 + first_equal(args.skip(1), long, short)
    }
}

/// The position of the first argument that starts with `prefix`, or the number of arguments.
pub open spec fn first_prefixed(args: Seq<Seq<char>>, prefix: Seq<char>) -> int
    decreases args.len(),
{
    if args.len() == 0 || prefix.is_prefix_of(args[0]) {
        0
    } else {
        1 + first_prefixed(args.skip(1), prefix)
    }
}

/// What stands at the position that `first_equal` gives, and before it.
proof fn lemma_first_equal(args: Seq<Seq<char>>, long: Seq<char>, short: Seq<char>)
    ensures
        0 <= first_equal(args, long, short) <= args.len(),
        forall|i: int|
            0 <= i < first_equal(args, long, short) ==> #[trigger] args[i] != long && args[i]
                != short,
        first_equal(args, long, short) < args.len() ==> args[first_equal(args, long, short)]
            == long || args[first_equal(args, long, short)] == short,
    decreases args.len(),
{
    if args.len() > 0 && args[0] != long && args[0] != short {
        lemma_first_equal(args.skip(1), long, short);
        assert forall|i: int| 0 <= i < first_equal(args, long, short) implies #[trigger] args[i]
            != long && args[i] != short by {
            if i > 0 {
                assert(args[i] == args.skip(1)[i - 1]);
            }
        }
    }
}

/// A position with these two properties is the one that `first_equal` gives.
proof fn lemma_first_equal_is(args: Seq<Seq<char>>, long: Seq<char>, short: Seq<char>, at: int)
    requires
        0 <= at <= args.len(),
        forall|i: int| 0 <= i < at ==> #[trigger] args[i] != long && args[i] != short,
        at < args.len() ==> args[at] == long || args[at] == short,
    ensures
        first_equal(args, long, short) == at,
{
    lemma_first_equal(args, long, short);
    let found = first_equal(args, long, short);
    if found < at {
        assert(args[found] != long);
    }
    if at < found {
        assert(args[at] != long);
    }
}

/// What stands at the position that `first_prefixed` gives, and before it.
proof fn lemma_first_prefixed(args: Seq<Seq<char>>, prefix: Seq<char>)
    ensures
        0 <= first_prefixed(args, prefix) <= args.len(),
        forall|i: int|
            0 <= i < first_prefixed(args, prefix) ==> !prefix.is_prefix_of(#[trigger] args[i]),
        first_prefixed(args, prefix) < args.len() ==> prefix.is_prefix_of(
            args[first_prefixed(args, prefix)],
        ),
    decreases args.len(),
{
    if args.len() > 0 && !prefix.is_prefix_of(args[0]) {
        lemma_first_prefixed(args.skip(1), prefix);
        assert forall|i: int| 0 <= i < first_prefixed(args, prefix) implies !prefix.is_prefix_of(
            #[trigger] args[i],
        ) by {
            if i > 0 {
                assert(args[i] == args.skip(1)[i - 1]);
            }
        }
    }
}

/// A position with these two properties is the one that `first_prefixed` gives.
proof fn lemma_first_prefixed_is(args: Seq<Seq<char>>, prefix: Seq<char>, at: int)
    requires
        0 <= at <= args.len(),
        forall|i: int| 0 <= i < at ==> !prefix.is_prefix_of(#[trigger] args[i]),
        at < args.len() ==> prefix.is_prefix_of(args[at]),
    ensures
        first_prefixed(args, prefix) == at,
{
    lemma_first_prefixed(args, prefix);
    let found = first_prefixed(args, prefix);
    if found < at {
        assert(!prefix.is_prefix_of(args[found]));
    }
    if at < found {
        assert(!prefix.is_prefix_of(args[at]));
    }
}

/// The position of the first argument that is `long` or `short`, or the number of arguments.
fn find_equal(args: &Vec<String>, long: &str, short: &str) -> (at: usize)
    ensures
        at == first_equal(text::texts(args@), long@, short@),
        at <= args@.len(),
{
    let ghost all = text::texts(args@);
    let mut at: usize = 0;
    while at < args.len()
        invariant
            at <= args@.len(),
            all == text::texts(args@),
            forall|i: int| 0 <= i < at ==> #[trigger] all[i] != long@ && all[i] != short@,
        decreases args@.len() - at,
    {
        assert(all[at as int] == args@[at as int]@);
        if text::same(args[at].as_str(), long) || text::same(args[at].as_str(), short) {
            proof {
                lemma_first_equal_is(all, long@, short@, at as int);
            }
            return at;
        }
        at = at + 1;
    }
    proof {
        lemma_first_equal_is(all, long@, short@, at as int);
    }
    at
}

/// The position of the first argument that starts with `prefix`, or the number of arguments.
fn find_prefixed(args: &Vec<String>, prefix: &str) -> (at: usize)
    ensures
        at == first_prefixed(text::texts(args@), prefix@),
        at <= args@.len(),
        at < args@.len() ==> prefix@.is_prefix_of(text::texts(args@)[at as int]),
{
    let ghost all = text::texts(args@);
    let mut at: usize = 0;
    while at < args.len()
        invariant
            at <= args@.len(),
            all == text::texts(args@),
            forall|i: int| 0 <= i < at ==> !prefix@.is_prefix_of(#[trigger] all[i]),
        decreases args@.len() - at,
    {
        assert(all[at as int] == args@[at as int]@);
        if text::starts_with(args[at].as_str(), prefix) {
            proof {
                lemma_first_prefixed_is(all, prefix@, at as int);
            }
            return at;
        }
        at = at + 1;
    }
    proof {
        lemma_first_prefixed_is(all, prefix@, at as int);
    }
    at
}

/// The value of a flag, `flag value` before `flag=value`.
pub open spec fn flag_value(args: Seq<Seq<char>>, flag: Seq<char>) -> Option<Seq<char>> {
    let at = first_equal(args, flag, flag);
    let prefix = flag + "="@;
    let joined_at = first_prefixed(args, prefix);
    if at + 1 < args.len() {
        Some(args[at + 1])
    } else if joined_at < args.len() {
        Some(args[joined_at].skip(prefix.len() as int))
    } else {
        None
    }
}

/// The arguments without a flag and its value.
pub open spec fn without_flag(args: Seq<Seq<char>>, flag: Seq<char>) -> Seq<Seq<char>> {
    let at = first_equal(args, flag, flag);
    let joined_at = first_prefixed(args, flag + "="@);
    if at + 1 < args.len() {
        args.take(at) + args.skip(at + 2)
    } else if joined_at < args.len() {
        args.remove(joined_at)
    } else {
        args
    }
}

/// Takes `flag value` or `flag=value` out of the arguments, and returns the value.
pub fn extract_flag(args: &mut Vec<String>, flag: &str) -> (r: Option<String>)
    ensures
        text::text_option(r) == flag_value(text::texts(old(args)@), flag@),
        text::texts(final(args)@) == without_flag(text::texts(old(args)@), flag@),
{
    let ghost all = text::texts(args@);
    let at = find_equal(args, flag, flag);
    let size: usize = args.len();
    if at < size && at + 1 < size {
        assert(all[at + 1] == args@[at + 1]@);
        args.remove(at);
        let value = args.remove(at);
        assert(text::texts(args@) =~= all.take(at as int) + all.skip(at + 2));
        return Some(value);
    }
    let prefix = flag.to_owned().concat("=");
    let joined_at = find_prefixed(args, prefix.as_str());
    if joined_at < args.len() {
        assert(all[joined_at as int] == args@[joined_at as int]@);
        let joined = args.remove(joined_at);
        assert(text::texts(args@) =~= all.remove(joined_at as int));
        let value = text::strip_prefix(joined.as_str(), prefix.as_str());
        proof {
            let rest = value->0@;
            assert(rest =~= joined@.skip(prefix@.len() as int));
        }
        return value;
    }
    None
}

/// The arguments without the first `long` or `short`.
pub open spec fn without_bool_flag(
    args: Seq<Seq<char>>,
    long: Seq<char>,
    short: Seq<char>,
) -> Seq<Seq<char>> {
    let at = first_equal(args, long, short);
    if at < args.len() {
        args.remove(at)
    } else {
        args
    }
}

/// Whether `long` or `short` is among the arguments.
pub open spec fn has_bool_flag(args: Seq<Seq<char>>, long: Seq<char>, short: Seq<char>) -> bool {
    args.contains(long) || args.contains(short)
}

/// Takes a flag without a value out of the arguments, and says whether it was there.
pub fn extract_bool_flag(args: &mut Vec<String>, long: &str, short: &str) -> (r: bool)
    ensures
        r == has_bool_flag(text::texts(old(args)@), long@, short@),
        text::texts(final(args)@) == without_bool_flag(text::texts(old(args)@), long@, short@),
{
    let ghost all = text::texts(args@);
    let at = find_equal(args, long, short);
    proof {
        lemma_first_equal(all, long@, short@);
    }
    if at < args.len() {
        assert(all.contains(all[at as int]));
        args.remove(at);
        assert(text::texts(args@) =~= all.remove(at as int));
        true
    } else {
        false
    }
}

/// What the shared flags say of the workspace.
pub open spec fn workspace_value(args: Seq<Seq<char>>) -> Option<Seq<char>> {
    match flag_value(args, "--workspace"@) {
        Some(workspace) => Some(workspace),
        None => flag_value(args, "-w"@),
    }
}

/// The arguments without what they say of the workspace.
pub open spec fn without_workspace(args: Seq<Seq<char>>) -> Seq<Seq<char>> {
    match flag_value(args, "--workspace"@) {
        Some(_) => without_flag(args, "--workspace"@),
        None => without_flag(without_flag(args, "--workspace"@), "-w"@),
    }
}

/// The arguments without `--json` and `--verbose`.
pub open spec fn without_switches(args: Seq<Seq<char>>) -> Seq<Seq<char>> {
    without_bool_flag(without_bool_flag(args, "--json"@, "-j"@), "--verbose"@, "-v"@)
}

/// The shared arguments of a command line that is given in `current_dir`.
pub open spec fn common_args(args: Seq<Seq<char>>, current_dir: Option<Seq<char>>) -> CommonModel {
    CommonModel {
        workspace: match workspace_value(without_switches(args)) {
            Some(workspace) => workspace,
            None => match current_dir {
                Some(dir) => dir,
                None => "."@,
            },
        },
        json: has_bool_flag(args, "--json"@, "-j"@),
        verbose: has_bool_flag(
            without_bool_flag(args, "--json"@, "-j"@),
            "--verbose"@,
            "-v"@,
        ),
    }
}

/// The arguments that are left when the shared ones are taken out.
pub open spec fn without_common(args: Seq<Seq<char>>) -> Seq<Seq<char>> {
    without_workspace(without_switches(args))
}

/// Takes the shared arguments out of a command line. The workspace is `current_dir` where none is
/// named, and `.` where that is not known.
pub fn parse_common_args(args: &mut Vec<String>, current_dir: Option<String>) -> (r: CommonArgs)
    ensures
        r@ == common_args(text::texts(old(args)@), text::text_option(current_dir)),
        text::texts(final(args)@) == without_common(text::texts(old(args)@)),
{
    let json = extract_bool_flag(args, "--json", "-j");
    let verbose = extract_bool_flag(args, "--verbose", "-v");
    let named = match extract_flag(args, "--workspace") {
        Some(workspace) => Some(workspace),
        None => extract_flag(args, "-w"),
    };
    let workspace = match named {
        Some(workspace) => workspace,
        None => match current_dir {
            Some(dir) => dir,
            None => ".".to_owned(),
        },
    };
    CommonArgs { workspace, json, verbose }
}

/// The first argument that is a flag.
pub open spec fn first_flag(args: Seq<Seq<char>>) -> Option<Seq<char>> {
    if first_prefixed(args, "-"@) < args.len() {
        Some(args[first_prefixed(args, "-"@)])
    } else {
        None
    }
}

/// The first argument that is a flag.
pub fn find_flag(args: &Vec<String>) -> (r: Option<String>)
    ensures
        text::text_option(r) == first_flag(text::texts(args@)),
{
    let at = find_prefixed(args, "-");
    if at < args.len() {
        assert(text::texts(args@)[at as int] == args@[at as int]@);
        Some(args[at].clone())
    } else {
        None
    }
}

/// Whether the help text is asked for.
pub open spec fn asks_help(args: Seq<Seq<char>>) -> bool {
    has_bool_flag(args, "--help"@, "-h"@)
}

/// Whether the help text is asked for.
pub fn wants_help(args: &Vec<String>) -> (r: bool)
    ensures
        r == asks_help(text::texts(args@)),
{
    text::any_same(args, "--help") || text::any_same(args, "-h")
}

/// What is said of a command line that cannot be run.
pub open spec fn usage_error(message: Seq<char>) -> Seq<char> {
    "error: "@ + message + "\nrun with --help for usage"@
}

/// What is said of a command line that cannot be run.
pub fn usage_message(message: &str) -> (r: String)
    ensures
        r@ == usage_error(message@),
{
    "error: ".to_owned().concat(message).concat("\nrun with --help for usage")
}

/// How long a build may take where nothing is said of it, in seconds.
pub const DEFAULT_MAX_WAIT_SECONDS: u64 = 600;

/// How long a build may take, in seconds; nothing where the flag has a value that is no number.
pub open spec fn max_wait(args: Seq<Seq<char>>) -> Option<nat> {
    match flag_value(args, "--max-wait-seconds"@) {
        Some(value) => text::parsed_unsigned(value, u64::MAX as nat),
        None => Some(DEFAULT_MAX_WAIT_SECONDS as nat),
    }
}

/// What is said where the time that a build may take is no number.
pub const MAX_WAIT_MESSAGE: &'static str = "--max-wait-seconds must be a positive integer";

/// Takes the time that a build may take out of the arguments.
pub fn extract_max_wait(args: &mut Vec<String>) -> (r: Option<u64>)
    ensures
        match r {
            Some(seconds) => max_wait(text::texts(old(args)@)) == Some(seconds as nat),
            None => max_wait(text::texts(old(args)@)) is None,
        },
        text::texts(final(args)@) == without_flag(text::texts(old(args)@), "--max-wait-seconds"@),
{
    match extract_flag(args, "--max-wait-seconds") {
        Some(value) => text::parse_unsigned(value.as_str(), u64::MAX),
        None => Some(DEFAULT_MAX_WAIT_SECONDS),
    }
}

/// The position of the first argument that is no flag, or the number of arguments.
pub open spec fn first_positional(args: Seq<Seq<char>>) -> int
    decreases args.len(),
{
    if args.len() == 0 || !"-"@.is_prefix_of(args[0]) {
        0
    } else {
        1 + first_positional(args.skip(1))
    }
}

/// The first argument that is no flag.
pub open spec fn positional(args: Seq<Seq<char>>) -> Option<Seq<char>> {
    if first_positional(args) < args.len() {
        Some(args[first_positional(args)])
    } else {
        None
    }
}

/// The first argument that is no flag.
pub fn find_positional(args: &Vec<String>) -> (r: Option<String>)
    ensures
        text::text_option(r) == positional(text::texts(args@)),
{
    let ghost all = text::texts(args@);
    let mut at: usize = 0;
    assert(all.skip(0) =~= all);
    while at < args.len()
        invariant
            at <= args@.len(),
            all == text::texts(args@),
            first_positional(all) == at + first_positional(all.skip(at as int)),
        decreases args@.len() - at,
    {
        assert(all[at as int] == args@[at as int]@);
        assert(all.skip(at as int)[0] == all[at as int]);
        if !text::starts_with(args[at].as_str(), "-") {
            return Some(args[at].clone());
        }
        assert(all.skip(at as int).skip(1) =~= all.skip(at + 1));
        at = at + 1;
    }
    None
}

/// `flag value` and `flag=value` say the same, wherever the flag stands among arguments that do
/// not speak of it.
#[verifier::rlimit(50)]
pub proof fn law_both_spellings_of_a_flag_agree(
    before: Seq<Seq<char>>,
    after: Seq<Seq<char>>,
    flag: Seq<char>,
    value: Seq<char>,
)
    requires
        forall|i: int|
            0 <= i < before.len() ==> #[trigger] before[i] != flag && !(flag + "="@).is_prefix_of(
                before[i],
            ),
        forall|i: int|
            0 <= i < after.len() ==> #[trigger] after[i] != flag && !(flag + "="@).is_prefix_of(
                after[i],
            ),
    ensures
        flag_value(before + seq![flag, value] + after, flag) == Some(value),
        without_flag(before + seq![flag, value] + after, flag) == before + after,
        flag_value(before + seq![flag + "="@ + value] + after, flag) == Some(value),
        without_flag(before + seq![flag + "="@ + value] + after, flag) == before + after,
{
    reveal_strlit("=");
    let apart = before + seq![flag, value] + after;
    let at = before.len() as int;
    assert(apart[at] == flag);
    assert forall|i: int| 0 <= i < at implies #[trigger] apart[i] != flag by {
        assert(apart[i] == before[i]);
    }
    lemma_first_equal_is(apart, flag, flag, at);
    assert(apart[at + 1] == value);
    assert(apart.take(at) + apart.skip(at + 2) =~= before + after);

    let prefix = flag + "="@;
    let one = prefix + value;
    let joined = before + seq![one] + after;
    assert(joined[at] == one);
    assert(one.len() != flag.len());
    assert(prefix.is_prefix_of(one)) by {
        assert(one.take(prefix.len() as int) =~= prefix);
    }
    assert forall|i: int| 0 <= i < joined.len() implies #[trigger] joined[i] != flag by {
        if i < at {
            assert(joined[i] == before[i]);
        } else if i > at {
            assert(joined[i] == after[i - at - 1]);
        }
    }
    lemma_first_equal_is(joined, flag, flag, joined.len() as int);
    assert forall|i: int| 0 <= i < at implies !prefix.is_prefix_of(#[trigger] joined[i]) by {
        assert(joined[i] == before[i]);
    }
    lemma_first_prefixed_is(joined, prefix, at);
    assert(one.skip(prefix.len() as int) =~= value);
    assert(joined.remove(at) =~= before + after);
}

/// A flag that the arguments do not hold has no value, and looking for it takes nothing away.
pub proof fn law_missing_flag_changes_nothing(
    args: Seq<Seq<char>>,
    flag: Seq<char>,
    long: Seq<char>,
    short: Seq<char>,
)
    ensures
        flag_value(args, flag) is None ==> without_flag(args, flag) == args,
        !has_bool_flag(args, long, short) ==> without_bool_flag(args, long, short) == args,
{
    lemma_first_equal(args, long, short);
    let at = first_equal(args, long, short);
    if at < args.len() {
        assert(args.contains(args[at]));
    }
}

/// A switch is there where one of its two spellings is among the arguments, and taking it out takes
/// nothing else away.
pub proof fn law_switch_is_taken_out(
    before: Seq<Seq<char>>,
    after: Seq<Seq<char>>,
    long: Seq<char>,
    short: Seq<char>,
    spelling: Seq<char>,
)
    requires
        spelling == long || spelling == short,
        forall|i: int| 0 <= i < before.len() ==> #[trigger] before[i] != long && before[i] != short,
    ensures
        has_bool_flag(before + seq![spelling] + after, long, short),
        without_bool_flag(before + seq![spelling] + after, long, short) == before + after,
        !has_bool_flag(before, long, short),
        without_bool_flag(before, long, short) == before,
{
    let all = before + seq![spelling] + after;
    let at = before.len() as int;
    assert(all[at] == spelling);
    assert(all.contains(spelling));
    assert forall|i: int| 0 <= i < at implies #[trigger] all[i] != long && all[i] != short by {
        assert(all[i] == before[i]);
    }
    lemma_first_equal_is(all, long, short, at);
    assert(all.remove(at) =~= before + after);
    law_missing_flag_changes_nothing(before, long, long, short);
}

/// Taking a switch out leaves every other argument.
proof fn lemma_others_stay(
    args: Seq<Seq<char>>,
    long: Seq<char>,
    short: Seq<char>,
    other: Seq<char>,
)
    requires
        other != long,
        other != short,
    ensures
        without_bool_flag(args, long, short).contains(other) <==> args.contains(other),
{
    lemma_first_equal(args, long, short);
    let at = first_equal(args, long, short);
    let rest = without_bool_flag(args, long, short);
    if at < args.len() {
        if args.contains(other) {
            let i = args.index_of(other);
            let j = if i < at {
                i
            } else {
                i - 1
            };
            assert(rest[j] == other);
        }
        if rest.contains(other) {
            let j = rest.index_of(other);
            let i = if j < at {
                j
            } else {
                j + 1
            };
            assert(args[i] == other);
        }
    }
}

/// JSON mode is asked for by `--json` or `-j` wherever it stands, and more detail by `--verbose` or
/// `-v`; the help text by `--help` or `-h`.
pub proof fn law_switches_count_anywhere(args: Seq<Seq<char>>, current_dir: Option<Seq<char>>)
    ensures
        common_args(args, current_dir).json <==> args.contains("--json"@) || args.contains("-j"@),
        common_args(args, current_dir).verbose <==> args.contains("--verbose"@) || args.contains(
            "-v"@,
        ),
        asks_help(args) <==> args.contains("--help"@) || args.contains("-h"@),
{
    reveal_strlit("--json");
    reveal_strlit("-j");
    reveal_strlit("--verbose");
    reveal_strlit("-v");
    assert("-j"@[1] != "-v"@[1]);
    assert("--json"@.len() == 6 && "--verbose"@.len() == 9);
    assert("-j"@.len() == 2 && "-v"@.len() == 2);
    lemma_others_stay(args, "--json"@, "-j"@, "--verbose"@);
    lemma_others_stay(args, "--json"@, "-j"@, "-v"@);
}

/// Whether an argument is no switch and says nothing of the workspace.
pub open spec fn is_other(arg: Seq<char>) -> bool {
    &&& arg != "--json"@ && arg != "-j"@ && arg != "--verbose"@ && arg != "-v"@
    &&& arg != "--workspace"@ && arg != "-w"@
    &&& !("--workspace"@ + "="@).is_prefix_of(arg)
    &&& !("-w"@ + "="@).is_prefix_of(arg)
}

/// Arguments that are no switches are left alone by looking for switches.
proof fn lemma_no_switches(args: Seq<Seq<char>>)
    requires
        forall|i: int|
            0 <= i < args.len() ==> #[trigger] args[i] != "--json"@ && args[i] != "-j"@ && args[i]
                != "--verbose"@ && args[i] != "-v"@,
    ensures
        without_switches(args) == args,
{
    law_missing_flag_changes_nothing(args, "--json"@, "--json"@, "-j"@);
    law_missing_flag_changes_nothing(args, "--json"@, "--verbose"@, "-v"@);
}

/// The workspace is what follows `--workspace` or `-w`, or stands behind `--workspace=` or `-w=`,
/// wherever that is; the arguments around it are left.
#[verifier::rlimit(50)]
pub proof fn law_named_workspace_counts(
    before: Seq<Seq<char>>,
    after: Seq<Seq<char>>,
    workspace: Seq<char>,
    current_dir: Option<Seq<char>>,
)
    requires
        forall|i: int| 0 <= i < before.len() ==> is_other(#[trigger] before[i]),
        forall|i: int| 0 <= i < after.len() ==> is_other(#[trigger] after[i]),
        is_other(workspace),
    ensures
        ({
            let long = before + seq!["--workspace"@, workspace] + after;
            let short = before + seq!["-w"@, workspace] + after;
            let long_joined = before + seq!["--workspace"@ + "="@ + workspace] + after;
            let short_joined = before + seq!["-w"@ + "="@ + workspace] + after;
            &&& common_args(long, current_dir).workspace == workspace
            &&& common_args(short, current_dir).workspace == workspace
            &&& common_args(long_joined, current_dir).workspace == workspace
            &&& common_args(short_joined, current_dir).workspace == workspace
            &&& without_common(long) == before + after
            &&& without_common(short) == before + after
            &&& without_common(long_joined) == before + after
            &&& without_common(short_joined) == before + after
        }),
{
    reveal_strlit("--workspace");
    reveal_strlit("-w");
    reveal_strlit("=");
    reveal_strlit("--json");
    reveal_strlit("-j");
    reveal_strlit("--verbose");
    reveal_strlit("-v");
    assert("-w"@[1] == 'w' && "-j"@[1] == 'j' && "-v"@[1] == 'v');
    assert("--workspace"@[2] == 'w' && "--json"@[2] == 'j' && "--verbose"@[2] == 'v');
    let long = before + seq!["--workspace"@, workspace] + after;
    let short = before + seq!["-w"@, workspace] + after;
    let one = "--workspace"@ + "="@ + workspace;
    let two = "-w"@ + "="@ + workspace;
    let long_joined = before + seq![one] + after;
    let short_joined = before + seq![two] + after;
    assert(one[2] == 'w');
    assert(two[1] == 'w');
    assert(two.len() >= 3 && two[2] == '=');
    lemma_around(before, seq!["--workspace"@, workspace], after);
    lemma_around(before, seq!["-w"@, workspace], after);
    lemma_around(before, seq![one], after);
    lemma_around(before, seq![two], after);
    law_both_spellings_of_a_flag_agree(before, after, "--workspace"@, workspace);
    law_both_spellings_of_a_flag_agree(before, after, "-w"@, workspace);
    assert(!("--workspace"@ + "="@).is_prefix_of("-w"@));
    assert(!("--workspace"@ + "="@).is_prefix_of(two)) by {
        if ("--workspace"@ + "="@).is_prefix_of(two) {
            assert(two.take(12)[1] == ("--workspace"@ + "="@)[1]);
        }
    }
    law_unspelled_flag_has_no_value(short, "--workspace"@);
    law_unspelled_flag_has_no_value(short_joined, "--workspace"@);
}

/// Arguments in the middle of others hold no switch where neither they nor the others do.
proof fn lemma_around(before: Seq<Seq<char>>, middle: Seq<Seq<char>>, after: Seq<Seq<char>>)
    requires
        forall|i: int| 0 <= i < before.len() ==> is_other(#[trigger] before[i]),
        forall|i: int| 0 <= i < after.len() ==> is_other(#[trigger] after[i]),
        forall|i: int|
            0 <= i < middle.len() ==> #[trigger] middle[i] != "--json"@ && middle[i] != "-j"@
                && middle[i] != "--verbose"@ && middle[i] != "-v"@,
    ensures
        without_switches(before + middle + after) == before + middle + after,
        forall|i: int|
            0 <= i < (before + middle + after).len() ==> is_other(
                #[trigger] (before + middle + after)[i],
            ) || middle.contains((before + middle + after)[i]),
{
    let all = before + middle + after;
    assert forall|i: int| 0 <= i < all.len() implies #[trigger] all[i] != "--json"@ && all[i]
        != "-j"@ && all[i] != "--verbose"@ && all[i] != "-v"@ && (is_other(all[i])
        || middle.contains(all[i])) by {
        if i < before.len() {
            assert(all[i] == before[i]);
        } else if i < before.len() + middle.len() {
            assert(all[i] == middle[i - before.len()]);
        } else {
            assert(all[i] == after[i - before.len() - middle.len()]);
        }
    }
    lemma_no_switches(all);
}

/// A flag that no argument spells has no value.
pub proof fn law_unspelled_flag_has_no_value(args: Seq<Seq<char>>, flag: Seq<char>)
    requires
        forall|i: int|
            0 <= i < args.len() ==> #[trigger] args[i] != flag && !(flag + "="@).is_prefix_of(
                args[i],
            ),
    ensures
        flag_value(args, flag) is None,
        without_flag(args, flag) == args,
{
    lemma_first_equal_is(args, flag, flag, args.len() as int);
    lemma_first_prefixed_is(args, flag + "="@, args.len() as int);
}

/// Where no workspace is named it is the current directory, or `.` where that is not known, and the
/// arguments are left as they are.
pub proof fn law_current_directory_is_the_workspace(
    args: Seq<Seq<char>>,
    current_dir: Option<Seq<char>>,
)
    requires
        forall|i: int| 0 <= i < args.len() ==> is_other(#[trigger] args[i]),
    ensures
        common_args(args, current_dir).workspace == match current_dir {
            Some(dir) => dir,
            None => "."@,
        },
        without_common(args) == args,
{
    lemma_no_switches(args);
    law_unspelled_flag_has_no_value(args, "--workspace"@);
    law_unspelled_flag_has_no_value(args, "-w"@);
}

/// A build may take the seconds that `--max-wait-seconds` names, and ten minutes where nothing is
/// said; a value that is no number is refused.
pub proof fn law_time_of_a_build(
    before: Seq<Seq<char>>,
    after: Seq<Seq<char>>,
    value: Seq<char>,
    seconds: nat,
)
    requires
        forall|i: int|
            0 <= i < before.len() ==> #[trigger] before[i] != "--max-wait-seconds"@ && !(
            "--max-wait-seconds"@ + "="@).is_prefix_of(before[i]),
        forall|i: int|
            0 <= i < after.len() ==> #[trigger] after[i] != "--max-wait-seconds"@ && !(
            "--max-wait-seconds"@ + "="@).is_prefix_of(after[i]),
    ensures
        max_wait(before) == Some(600nat),
        max_wait(before + seq!["--max-wait-seconds"@, text::decimal_text(seconds)] + after)
            == if seconds <= u64::MAX {
            Some(seconds)
        } else {
            None
        },
        value.len() == 0 || !text::is_digit(value.last()) ==> max_wait(
            before + seq!["--max-wait-seconds"@, value] + after,
        ) is None,
{
    law_unspelled_flag_has_no_value(before, "--max-wait-seconds"@);
    law_both_spellings_of_a_flag_agree(
        before,
        after,
        "--max-wait-seconds"@,
        text::decimal_text(seconds),
    );
    law_both_spellings_of_a_flag_agree(before, after, "--max-wait-seconds"@, value);
    text::law_decimal_is_read_back(seconds, u64::MAX as nat);
    if value.len() > 0 && !text::is_digit(value.last()) {
        let digits = text::unsigned_digits(value);
        if digits.len() > 0 {
            assert(digits[digits.len() - 1] == value.last());
        }
    }
}

/// The argument that is no flag is the first that does not begin with a dash; the first flag is the
/// first that does.
pub proof fn law_flags_begin_with_a_dash(before: Seq<Seq<char>>, arg: Seq<char>, after: Seq<Seq<char>>)
    ensures
        (forall|i: int| 0 <= i < before.len() ==> "-"@.is_prefix_of(#[trigger] before[i])) ==> {
            &&& positional(before) is None
            &&& !"-"@.is_prefix_of(arg) ==> positional(before + seq![arg] + after) == Some(arg)
        },
        (forall|i: int| 0 <= i < before.len() ==> !"-"@.is_prefix_of(#[trigger] before[i])) ==> {
            &&& first_flag(before) is None
            &&& "-"@.is_prefix_of(arg) ==> first_flag(before + seq![arg] + after) == Some(arg)
        },
{
    let all = before + seq![arg] + after;
    let at = before.len() as int;
    assert(all[at] == arg);
    if forall|i: int| 0 <= i < before.len() ==> "-"@.is_prefix_of(#[trigger] before[i]) {
        lemma_first_positional(before, before.len() as int);
        if !"-"@.is_prefix_of(arg) {
            assert forall|i: int| 0 <= i < at implies "-"@.is_prefix_of(#[trigger] all[i]) by {
                assert(all[i] == before[i]);
            }
            lemma_first_positional(all, at);
        }
    }
    if forall|i: int| 0 <= i < before.len() ==> !"-"@.is_prefix_of(#[trigger] before[i]) {
        lemma_first_prefixed_is(before, "-"@, before.len() as int);
        if "-"@.is_prefix_of(arg) {
            assert forall|i: int| 0 <= i < at implies !"-"@.is_prefix_of(#[trigger] all[i]) by {
                assert(all[i] == before[i]);
            }
            lemma_first_prefixed_is(all, "-"@, at);
        }
    }
}

/// Where the first argument stands that is no flag.
proof fn lemma_first_positional(args: Seq<Seq<char>>, at: int)
    requires
        0 <= at <= args.len(),
        forall|i: int| 0 <= i < at ==> "-"@.is_prefix_of(#[trigger] args[i]),
        at < args.len() ==> !"-"@.is_prefix_of(args[at]),
    ensures
        first_positional(args) == at,
    decreases at,
{
    if at > 0 {
        let rest = args.skip(1);
        assert("-"@.is_prefix_of(args[0]));
        assert forall|i: int| 0 <= i < at - 1 implies "-"@.is_prefix_of(#[trigger] rest[i]) by {
            assert(rest[i] == args[i + 1]);
        }
        lemma_first_positional(rest, at - 1);
    }
}

/// A command line that cannot be run is answered with the reason and where to find help.
pub proof fn law_usage_errors(message: Seq<char>)
    ensures
        usage_error(message) == "error: "@ + message + "\nrun with --help for usage"@,
        MAX_WAIT_MESSAGE@ == "--max-wait-seconds must be a positive integer"@,
{
}

/// A flag at the end of the arguments has no value, and stays where it is.
pub proof fn law_flag_without_a_value(before: Seq<Seq<char>>, flag: Seq<char>)
    requires
        forall|i: int|
            0 <= i < before.len() ==> #[trigger] before[i] != flag && !(flag + "="@).is_prefix_of(
                before[i],
            ),
    ensures
        flag_value(before.push(flag), flag) is None,
        without_flag(before.push(flag), flag) == before.push(flag),
{
    reveal_strlit("=");
    let all = before.push(flag);
    assert forall|i: int| 0 <= i < before.len() implies #[trigger] all[i] != flag && !(flag
        + "="@).is_prefix_of(all[i]) by {
        assert(all[i] == before[i]);
    }
    lemma_first_equal_is(all, flag, flag, before.len() as int);
    assert(!(flag + "="@).is_prefix_of(flag));
    lemma_first_prefixed_is(all, flag + "="@, all.len() as int);
}

} // verus!
