use vstd::prelude::*;

verus! {

/// Where to scan for content and where to write the index, as given on a
/// command line (`args[0]` is the executable).
pub struct Config {
    pub scan_path: String,
    pub index_path: String,
}

/// The content directory used when none is given.
pub open spec fn default_scan_path() -> Seq<char> {
    "./content/"@
}

/// The index location used when none is given.
pub open spec fn default_index_path() -> Seq<char> {
    "./static/index.json"@
}

/// The argument at `i`, or `default` when there are not that many.
pub open spec fn arg_or(args: Seq<String>, i: int, default: Seq<char>) -> Seq<char> {
    if i < args.len() {
        args[i]@
    } else {
        default
    }
}

/// The argument at position `i` is the one read there, whatever follows it;
/// where there is none, the default is read.
pub proof fn lemma_argument_at_its_position(args: Seq<String>, i: int, default: Seq<char>)
    requires
        0 <= i,
    ensures
        i < args.len() ==> arg_or(args, i, default) == args[i]@,
        i >= args.len() ==> arg_or(args, i, default) == default,
{
}

/// Further arguments do not change what is read at a position that is
/// already given.
pub proof fn lemma_later_arguments_change_nothing(
    args: Seq<String>,
    more: Seq<String>,
    i: int,
    default: Seq<char>,
)
    requires
        0 <= i < args.len(),
    ensures
        arg_or(args + more, i, default) == arg_or(args, i, default),
{
    assert((args + more)[i] == args[i]);
}

impl Config {
    /// Reads the scan path from `args[1]` and the index path from `args[2]`,
    /// falling back to the defaults for those that are missing.
    pub fn new(args: &[String]) -> (config: Config)
        ensures
            config.scan_path@ == arg_or(args@, 1, default_scan_path()),
            config.index_path@ == arg_or(args@, 2, default_index_path()),
            args@.len() > 1 ==> config.scan_path@ == args@[1]@,
            args@.len() <= 1 ==> config.scan_path@ == "./content/"@,
            args@.len() > 2 ==> config.index_path@ == args@[2]@,
            args@.len() <= 2 ==> config.index_path@ == "./static/index.json"@,
    {
        let scan_path = if args.len() > 1 {
            args[1].clone()
        } else {
            "./content/".to_owned()
        };
        let index_path = if args.len() > 2 {
            args[2].clone()
        } else {
            "./static/index.json".to_owned()
        };
        Config { scan_path, index_path }
    }
}

} // verus!
