//! The command line.
//!
//! ```text
//! -h        --help            print the usage
//! -c=value  --config=value    read the settings from this file
//! -b=value  --backend=value   run this backend: drm, winit or x11
//! ```
//!
//! Nothing on the command line is fatal. What is not understood is answered
//! with the usage, and the arguments after it are still read.
use vstd::prelude::*;
use vstd::string::*;
use crate::utils::text::{find_char, position_of, str_eq};
use crate::{UserData, UserDataView};

verus! {

/// Something to tell the user about the command line.
#[derive(Clone, Copy, Debug, PartialEq, Eq, Structural)]
pub enum CliMessage {
    /// Print the usage.
    Usage,
    /// Report that this flag is not known.
    UnknownFlag(char),
}

/// What a single-dash argument, read letter by letter, has to say: a dash
/// says nothing, `h` asks for the usage, and any other letter is reported
/// as unknown and answered with the usage.
pub open spec fn flag_messages(flags: Seq<char>) -> Seq<CliMessage>
    decreases flags.len(),
{
    if flags.len() == 0 {
        Seq::empty()
    } else {
        let earlier = flag_messages(flags.drop_last());
        let flag = flags.last();
        if flag == '-' {
            earlier
        } else if flag == 'h' {
            earlier.push(CliMessage::Usage)
        } else {
            earlier.push(CliMessage::UnknownFlag(flag)).push(CliMessage::Usage)
        }
    }
}

/// Whether a key asks for the configuration file.
pub open spec fn is_config_key(key: Seq<char>) -> bool {
    key == "--config"@ || key == "-c"@
}

/// Whether a key asks for the backend.
pub open spec fn is_backend_key(key: Seq<char>) -> bool {
    key == "--backend"@ || key == "-b"@
}

/// The user's choices after one more argument.
///
/// An argument with `=` in it is a key and a value, split at the first
/// `=`. The keys for the configuration file and for the backend store the
/// value, in place of an earlier one. No other argument stores anything.
pub open spec fn data_after_arg(data: UserDataView, arg: Seq<char>) -> UserDataView {
    let at = position_of(arg, '=');
    if at < arg.len() {
        let key = arg.subrange(0, at);
        let value = arg.subrange(at + 1, arg.len() as int);
        if is_config_key(key) {
            UserDataView { config_path: Some(value), ..data }
        } else if is_backend_key(key) {
            UserDataView { backend: Some(value), ..data }
        } else {
            data
        }
    } else {
        data
    }
}

/// What one argument has to say to the user.
///
/// A key that is not known asks for the usage. So does every argument
/// without `=` that starts with two dashes, `--help` among them. One that
/// starts with a single dash is read letter by letter. Any other argument
/// is passed over.
pub open spec fn messages_of_arg(arg: Seq<char>) -> Seq<CliMessage> {
    let at = position_of(arg, '=');
    if at < arg.len() {
        let key = arg.subrange(0, at);
        if is_config_key(key) || is_backend_key(key) {
            Seq::empty()
        } else {
            seq![CliMessage::Usage]
        }
    } else if arg.len() >= 2 && arg[0] == '-' && arg[1] == '-' {
        seq![CliMessage::Usage]
    } else if arg.len() >= 1 && arg[0] == '-' {
        flag_messages(arg)
    } else {
        Seq::empty()
    }
}

/// The arguments as sequences of characters.
pub open spec fn args_view(args: Seq<String>) -> Seq<Seq<char>> {
    args.map_values(|arg: String| arg@)
}

/// The user's choices after all the arguments, taken in order.
pub open spec fn data_after(data: UserDataView, args: Seq<Seq<char>>) -> UserDataView
    decreases args.len(),
{
    if args.len() == 0 {
        data
    } else {
        data_after_arg(data_after(data, args.drop_last()), args.last())
    }
}

/// What all the arguments have to say to the user, in order.
pub open spec fn messages_of(args: Seq<Seq<char>>) -> Seq<CliMessage>
    decreases args.len(),
{
    if args.len() == 0 {
        Seq::empty()
    } else {
        messages_of(args.drop_last()) + messages_of_arg(args.last())
    }
}

/// Reads a single-dash argument letter by letter.
fn read_flags(arg: &str, messages: &mut Vec<CliMessage>)
    ensures
        final(messages)@ == old(messages)@ + flag_messages(arg@),
{
    let n = arg.unicode_len();
    let mut i: usize = 0;
    while i < n
        invariant
            n == arg@.len(),
            i <= n,
            messages@ == old(messages)@ + flag_messages(arg@.take(i as int)),
        decreases n - i,
    {
        let flag = arg.get_char(i);
        proof {
            assert(arg@.take(i + 1).drop_last() =~= arg@.take(i as int));
        }
        if flag == '-' {
            // A dash among the flags says nothing.
        } else if flag == 'h' {
            messages.push(CliMessage::Usage);
        } else {
            messages.push(CliMessage::UnknownFlag(flag));
            messages.push(CliMessage::Usage);
        }
        i += 1;
    }
    proof {
        assert(arg@.take(n as int) =~= arg@);
    }
}

/// Reads one argument.
fn parse_arg(arg: &str, data: &mut UserData, messages: &mut Vec<CliMessage>)
    ensures
        final(data)@ == data_after_arg(old(data)@, arg@),
        final(messages)@ == old(messages)@ + messages_of_arg(arg@),
{
    let n = arg.unicode_len();
    match find_char(arg, '=') {
        Some(at) => {
            let key = arg.substring_char(0, at);
            let value = arg.substring_char(at + 1, n);
            if str_eq(key, "--config") || str_eq(key, "-c") {
                data.config_path = Some(String::from_str(value));
            } else if str_eq(key, "--backend") || str_eq(key, "-b") {
                data.backend = Some(String::from_str(value));
            } else {
                messages.push(CliMessage::Usage);
            }
        },
        None => {
            if n >= 2 && arg.get_char(0) == '-' && arg.get_char(1) == '-' {
                messages.push(CliMessage::Usage);
            } else if n >= 1 && arg.get_char(0) == '-' {
                read_flags(arg, messages);
            } else {
            }
        },
    }
}

/// Reads the arguments of the command line, the program's own name left
/// out, into the user's choices, and says what the user is to be told.
pub fn parse_args(args: &Vec<String>, data: &mut UserData) -> (messages: Vec<CliMessage>)
    ensures
        final(data)@ == data_after(old(data)@, args_view(args@)),
        messages@ == messages_of(args_view(args@)),
{
    let mut messages: Vec<CliMessage> = Vec::new();
    let mut i: usize = 0;
    while i < args.len()
        invariant
            i <= args.len(),
            data@ == data_after(old(data)@, args_view(args@).take(i as int)),
            messages@ == messages_of(args_view(args@).take(i as int)),
        decreases args.len() - i,
    {
        proof {
            let all = args_view(args@);
            assert(all.take(i + 1).drop_last() =~= all.take(i as int));
        }
        parse_arg(args[i].as_str(), data, &mut messages);
        i += 1;
    }
    proof {
        assert(args_view(args@).take(args.len() as int) =~= args_view(args@));
    }
    messages
}

} // verus!
