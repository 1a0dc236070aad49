use vstd::prelude::*;
use crate::text::{count_value, parse_count, same_text};

verus! {

/// A flag that must be followed by a value.
#[derive(Clone, Copy, Debug, PartialEq, Eq, Structural)]
pub enum ValueFlag {
    Threads,
    Proxy,
}

/// Why the command line was refused.
#[derive(Clone, Copy, Debug, PartialEq, Eq, Structural)]
pub enum ArgError {
    /// Fewer than two arguments after the program name.
    Usage,
    /// `-threads` or `-proxy` stands last, without its value.
    MissingValue(ValueFlag),
    /// The argument at this position is no known flag.
    UnknownArg(usize),
}

/// The options of a run, as the command line gives them.
pub struct Options {
    /// The `-threads` value; 1 where it is absent or no count. It does not limit anything.
    pub threads: usize,
    /// Whether `-fast` was given; it only changes what is printed.
    pub fast: bool,
    /// The `-proxy` value, where given.
    pub proxy_path: Option<String>,
}

/// The options as plain values: the thread count, the fast flag and the proxy file path.
pub type OptionsModel = (usize, bool, Option<Seq<char>>);

/// The view of an optional string.
pub open spec fn opt_text(o: Option<String>) -> Option<Seq<char>> {
    match o {
        Some(s) => Some(s@),
        None => None,
    }
}

impl Options {
    /// The options as plain values.
    pub open spec fn model(&self) -> OptionsModel {
        (self.threads, self.fast, opt_text(self.proxy_path))
    }
}

/// The value that `-threads` takes from its argument: the count it writes, else 1.
pub open spec fn threads_value(s: Seq<char>) -> usize {
    match count_value(s) {
        Some(n) => n,
        None => 1,
    }
}

/// Reads the arguments from position `i` on, with the options read so far; a later flag
/// overrides an earlier one.
pub open spec fn scan_args(args: Seq<Seq<char>>, i: int, acc: OptionsModel) -> Result<OptionsModel, ArgError>
    decreases args.len() - i,
{
    if i < 0 || i >= args.len() {
        Ok(acc)
    } else if args[i] == "-threads"@ {
        if i + 1 < args.len() {
            scan_args(args, i + 2, (threads_value(args[i + 1]), acc.1, acc.2))
        } else {
            Err(ArgError::MissingValue(ValueFlag::Threads))
        }
    } else if args[i] == "-fast"@ {
        scan_args(args, i + 1, (acc.0, true, acc.2))
    } else if args[i] == "-proxy"@ {
        if i + 1 < args.len() {
            scan_args(args, i + 2, (acc.0, acc.1, Some(args[i + 1])))
        } else {
            Err(ArgError::MissingValue(ValueFlag::Proxy))
        }
    } else {
        Err(ArgError::UnknownArg(i as usize))
    }
}

/// What a command line, program name first, yields.
pub open spec fn args_spec(args: Seq<Seq<char>>) -> Result<OptionsModel, ArgError> {
    if args.len() < 3 {
        Err(ArgError::Usage)
    } else {
        scan_args(args, 1, (1, false, None))
    }
}

/// The arguments as plain values.
pub open spec fn args_view(args: Seq<String>) -> Seq<Seq<char>> {
    args.map_values(|a: String| a@)
}

/// Reads the command line, program name first: `-threads <n>`, `-fast` and `-proxy <file>`
/// in any order; anything else is refused.
pub fn parse_args(args: &Vec<String>) -> (r: Result<Options, ArgError>)
    ensures
        match args_spec(args_view(args@)) {
            Ok(m) => r matches Ok(o) && o.model() == m,
            Err(e) => r matches Err(e2) && e2 == e,
        },
{
    let ghost av = args_view(args@);
    if args.len() < 3 {
        return Err(ArgError::Usage);
    }
    let mut threads: usize = 1;
    let mut fast = false;
    let mut proxy_path: Option<String> = None;
    let mut i: usize = 1;
    while i < args.len()
        invariant
            av == args_view(args@),
            av.len() == args@.len(),
            1 <= i,
            args_spec(av) == scan_args(av, i as int, (threads, fast, opt_text(proxy_path))),
        decreases args@.len() - i,
    {
        let a = args[i].as_str();
        assert(av[i as int] == args@[i as int]@);
        if same_text(a, "-threads") {
            if i + 1 < args.len() {
                assert(av[i + 1] == args@[i + 1]@);
                threads = match parse_count(args[i + 1].as_str()) {
                    Some(n) => n,
                    None => 1,
                };
                i = i + 2;
            } else {
                return Err(ArgError::MissingValue(ValueFlag::Threads));
            }
        } else if same_text(a, "-fast") {
            fast = true;
            i = i + 1;
        } else if same_text(a, "-proxy") {
            if i + 1 < args.len() {
                assert(av[i + 1] == args@[i + 1]@);
                proxy_path = Some(args[i + 1].clone());
                i = i + 2;
            } else {
                return Err(ArgError::MissingValue(ValueFlag::Proxy));
            }
        } else {
            return Err(ArgError::UnknownArg(i));
        }
    }
    Ok(Options { threads, fast, proxy_path })
}

} // verus!
