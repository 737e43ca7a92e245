use livesplit_auto_splitting::pointer::PointerKind;
use livesplit_auto_splitting::process::{
    lookup_module, select_newest, ProcEntry, Process, ProcessError,
};

fn entry(pid: u32, name: &str, start_time: u64) -> ProcEntry {
    ProcEntry { pid, name: String::from(name), start_time }
}

#[test]
fn the_latest_started_process_of_a_name_wins() {
    let procs = vec![
        entry(10, "game.exe", 100),
        entry(11, "other.exe", 900),
        entry(12, "game.exe", 300),
        entry(13, "game.exe", 200),
    ];
    assert_eq!(select_newest(&procs, "game.exe"), Some(2));
    assert_eq!(select_newest(&procs, "other.exe"), Some(1));
    assert_eq!(select_newest(&procs, "missing.exe"), None);
}

#[test]
fn the_earliest_listed_wins_among_equal_start_times() {
    let procs = vec![
        entry(10, "game.exe", 100),
        entry(11, "game.exe", 300),
        entry(12, "game.exe", 300),
    ];
    assert_eq!(select_newest(&procs, "game.exe"), Some(1));
}

#[test]
fn module_lookups_are_first_wins() {
    let mods = vec![
        (String::from("a.so"), 0x1000u64),
        (String::from("b.so"), 0x2000),
        (String::from("a.so"), 0x3000),
    ];
    assert_eq!(lookup_module(&mods, "a.so"), Ok(0x1000));
    assert_eq!(lookup_module(&mods, "b.so"), Ok(0x2000));
    assert_eq!(lookup_module(&mods, "c.so"), Err(ProcessError::ModuleDoesntExist));
}

#[test]
fn absent_process_names_do_not_resolve() {
    let r = Process::with_name("no_process_could_carry_this_name_0x7f");
    assert!(matches!(r, Err(ProcessError::ProcessDoesntExist)));
}

#[test]
fn the_running_process_can_be_opened() {
    let pid = sysinfo::get_current_pid().expect("the current pid is known");
    let process = Process::with_pid(pid.as_u32()).expect("opening the current process");
    assert_eq!(process.pid, pid.as_u32());
}

#[test]
fn unmapped_addresses_fail_with_a_read_error() {
    let pid = sysinfo::get_current_pid().expect("the current pid is known");
    let process = Process::with_pid(pid.as_u32()).expect("opening the current process");
    assert_eq!(process.read(8, PointerKind::U32), Err(ProcessError::ReadMemory));
}

#[test]
fn string_leaves_are_not_implemented() {
    let pid = sysinfo::get_current_pid().expect("the current pid is known");
    let process = Process::with_pid(pid.as_u32()).expect("opening the current process");
    assert_eq!(process.read(8, PointerKind::Str), Err(ProcessError::Unimplemented));
}

#[test]
fn absent_modules_do_not_resolve() {
    let pid = sysinfo::get_current_pid().expect("the current pid is known");
    let process = Process::with_pid(pid.as_u32()).expect("opening the current process");
    assert_eq!(
        process.module_address("no_module_could_carry_this_name_0x7f"),
        Err(ProcessError::ModuleDoesntExist)
    );
}
