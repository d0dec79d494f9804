use vstd::prelude::*;

verus! {

/// The process gets a console of its own.
pub const CREATE_NEW_CONSOLE: u32 = 0x0000_0010;

/// The process gets no window.
pub const CREATE_NO_WINDOW: u32 = 0x0800_0000;

/// The creation flags of every launch: a console of its own, and no window.
pub const LAUNCH_CREATION_FLAGS: u32 = 0x0800_0010;

/// Whether a launched process inherits the launcher's handles: it never does.
pub const LAUNCH_INHERITS_HANDLES: bool = false;

/// What a process is spawned with.
#[derive(Clone, Debug, PartialEq, Eq)]
pub struct SpawnRequest {
    /// The command line, as zero-terminated UTF-16.
    pub command_line: Vec<u16>,
    /// The creation flags.
    pub creation_flags: u32,
    /// Whether the process inherits the spawner's handles.
    pub inherit_handles: bool,
}

/// The one argument that every launch passes to the executable.
pub open spec fn launch_flag() -> Seq<char> {
    "-launch"@
}

/// The UTF-16 code units that encode a text.
pub uninterp spec fn utf16_units(text: Seq<char>) -> Seq<u16>;

/// Calls `str::encode_utf16` and collects what it yields. The result is the
/// encoding that std gives to the text; nothing more is claimed of it.
#[verifier::external_body]
fn encode_wide(text: &str) -> (units: Vec<u16>)
    ensures
        units@ == utf16_units(text@),
{
    text.encode_utf16().collect()
}

/// The code units of a command line before its terminating zero: those of the
/// application, and for each argument in turn one space and the argument's.
pub open spec fn joined_units(application: Seq<u16>, args: Seq<Seq<u16>>) -> Seq<u16>
    decreases args.len(),
{
    if args.len() == 0 {
        application
    } else {
        joined_units(application, args.drop_last()) + seq![0x20u16] + args.last()
    }
}

/// The encodings of the arguments, in order.
pub open spec fn encoded_arguments(args: Seq<&str>) -> Seq<Seq<u16>> {
    Seq::new(args.len(), |i: int| utf16_units(args[i]@))
}

/// What the vectors of `parts` hold, in order.
pub open spec fn contents(parts: Seq<Vec<u16>>) -> Seq<Seq<u16>> {
    Seq::new(parts.len(), |i: int| parts[i]@)
}

/// The command line of a launch, as zero-terminated UTF-16, from the encodings
/// of the application and of the arguments.
pub open spec fn command_line_of(application: Seq<u16>, args: Seq<Seq<u16>>) -> Seq<u16> {
    joined_units(application, args).push(0u16)
}

/// The creation flags of a launch.
pub fn creation_flags() -> (flags: u32)
    ensures
        flags == CREATE_NEW_CONSOLE | CREATE_NO_WINDOW,
        flags == LAUNCH_CREATION_FLAGS,
{
    assert(0x0000_0010u32 | 0x0800_0000u32 == 0x0800_0010u32) by (bit_vector);
    CREATE_NEW_CONSOLE | CREATE_NO_WINDOW
}

/// The arguments of a launch: the launch flag alone.
pub fn launch_arguments() -> (args: Vec<&'static str>)
    ensures
        args@.len() == 1,
        args@[0]@ == launch_flag(),
{
    let mut args: Vec<&'static str> = Vec::new();
    args.push("-launch");
    args
}

/// Puts a command line together from the encodings of its parts: the
/// application, the arguments separated by single spaces, and a terminating
/// zero. Nothing is quoted.
pub fn assemble_command_line(application: &Vec<u16>, args: &Vec<Vec<u16>>) -> (cmd: Vec<u16>)
    ensures
        cmd@ == command_line_of(application@, contents(args@)),
{
    let mut cmd: Vec<u16> = Vec::new();
    cmd.extend_from_slice(application.as_slice());
    assert(cmd@ =~= application@);
    let mut i: usize = 0;
    while i < args.len()
        invariant
            i <= args@.len(),
            cmd@ == joined_units(application@, contents(args@.subrange(0, i as int))),
        decreases args@.len() - i,
    {
        assert(contents(args@.subrange(0, i + 1)).drop_last() =~= contents(
            args@.subrange(0, i as int),
        ));
        assert(contents(args@.subrange(0, i + 1)).last() == args@[i as int]@);
        cmd.push(0x20u16);
        cmd.extend_from_slice(args[i].as_slice());
        i += 1;
        assert(cmd@ =~= joined_units(application@, contents(args@.subrange(0, i as int))));
    }
    assert(args@.subrange(0, i as int) =~= args@);
    cmd.push(0u16);
    cmd
}

/// Encodes the arguments of a command line, each by itself.
pub fn encode_arguments(args: &Vec<&str>) -> (encoded: Vec<Vec<u16>>)
    ensures
        contents(encoded@) == encoded_arguments(args@),
{
    let mut encoded: Vec<Vec<u16>> = Vec::new();
    let mut i: usize = 0;
    while i < args.len()
        invariant
            i <= args@.len(),
            encoded@.len() == i,
            forall|k: int| 0 <= k < i ==> (#[trigger] encoded@[k])@ == utf16_units(args@[k]@),
        decreases args@.len() - i,
    {
        encoded.push(encode_wide(args[i]));
        i += 1;
    }
    assert(contents(encoded@) =~= encoded_arguments(args@));
    encoded
}

/// Builds the command line that a process is spawned with: the application,
/// the arguments separated by single spaces, and a terminating zero, all in
/// UTF-16. Nothing is quoted.
pub fn command_line(application: &str, args: &Vec<&str>) -> (cmd: Vec<u16>)
    ensures
        cmd@ == command_line_of(utf16_units(application@), encoded_arguments(args@)),
{
    let encoded = encode_arguments(args);
    let first = encode_wide(application);
    assemble_command_line(&first, &encoded)
}

/// What a console process is spawned with: the command line of the
/// application and its arguments, a console of its own, no window, and no
/// inherited handle.
pub fn spawn_console_process(application: &str, args: Vec<&str>) -> (request: SpawnRequest)
    ensures
        request.command_line@ == command_line_of(
            utf16_units(application@),
            encoded_arguments(args@),
        ),
        request.creation_flags == LAUNCH_CREATION_FLAGS,
        request.inherit_handles == LAUNCH_INHERITS_HANDLES,
{
    SpawnRequest {
        command_line: command_line(application, &args),
        creation_flags: creation_flags(),
        inherit_handles: LAUNCH_INHERITS_HANDLES,
    }
}

} // verus!
