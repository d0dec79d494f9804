use sclauncher::spawn::{
    assemble_command_line, command_line, creation_flags, encode_arguments, launch_arguments,
    spawn_console_process,
    CREATE_NEW_CONSOLE, CREATE_NO_WINDOW, LAUNCH_CREATION_FLAGS, LAUNCH_INHERITS_HANDLES,
};

fn wide(text: &str) -> Vec<u16> {
    text.encode_utf16().collect()
}

#[test]
fn launch_command_line() {
    let path = "D:\\Games\\SC\\x86_64\\StarCraft.exe";
    let cmd = command_line(path, &launch_arguments());
    let mut expected = wide("D:\\Games\\SC\\x86_64\\StarCraft.exe -launch");
    expected.push(0);
    assert_eq!(cmd, expected);
}

#[test]
fn command_line_without_arguments_is_the_application_and_a_zero() {
    assert_eq!(command_line("a.exe", &vec![]), vec![0x61, 0x2e, 0x65, 0x78, 0x65, 0]);
    assert_eq!(command_line("", &vec![]), vec![0]);
}

#[test]
fn command_line_is_utf16() {
    let cmd = command_line("\u{d55c}\u{1f600}", &vec!["\u{e9}"]);
    assert_eq!(cmd, vec![0xd55c, 0xd83d, 0xde00, 0x20, 0xe9, 0]);
}

#[test]
fn arguments_are_separated_by_single_spaces_and_not_quoted() {
    let cmd = command_line("app", &vec!["-a", "b c", ""]);
    let mut expected = wide("app -a b c ");
    expected.push(0);
    assert_eq!(cmd, expected);
}

#[test]
fn command_line_is_assembled_from_encoded_parts() {
    let cmd = assemble_command_line(&vec![1, 2], &vec![vec![3], vec![], vec![4, 5]]);
    assert_eq!(cmd, vec![1, 2, 0x20, 3, 0x20, 0x20, 4, 5, 0]);
    assert_eq!(encode_arguments(&vec!["-x", "\u{1f600}"]), vec![vec![0x2d, 0x78], vec![0xd83d, 0xde00]]);
}

#[test]
fn launch_arguments_are_the_launch_flag() {
    assert_eq!(launch_arguments(), vec!["-launch"]);
}

#[test]
fn launch_flags() {
    assert_eq!(creation_flags(), 0x0800_0010);
    assert_eq!(creation_flags(), CREATE_NEW_CONSOLE | CREATE_NO_WINDOW);
    assert_eq!(LAUNCH_CREATION_FLAGS, creation_flags());
    assert!(!LAUNCH_INHERITS_HANDLES);
}

#[test]
fn spawn_request_of_a_launch() {
    let request = spawn_console_process("C:\\SC\\x86\\StarCraft.exe", launch_arguments());
    let mut expected = wide("C:\\SC\\x86\\StarCraft.exe -launch");
    expected.push(0);
    assert_eq!(request.command_line, expected);
    assert_eq!(request.creation_flags, 0x0800_0010);
    assert!(!request.inherit_handles);
}
