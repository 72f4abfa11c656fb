use winmgr::autostart::autostart_command;
use winmgr::label::label;

#[test]
fn label_is_prefix_and_decimal_index() {
    assert_eq!(label(0), "winmgr_bind_0");
    assert_eq!(label(7), "winmgr_bind_7");
    assert_eq!(label(10), "winmgr_bind_10");
    assert_eq!(label(409), "winmgr_bind_409");
    assert_eq!(label(1_000_000), "winmgr_bind_1000000");
    assert_eq!(label(usize::MAX), format!("winmgr_bind_{}", usize::MAX));
}

#[test]
fn labels_are_distinct() {
    let labels: Vec<String> = (0..1200).map(label).collect();
    for i in 0..labels.len() {
        assert_eq!(labels[i], format!("winmgr_bind_{}", i));
        if i > 0 {
            assert_ne!(labels[i], labels[i - 1]);
        }
    }
    assert_ne!(label(1), label(10));
    assert_ne!(label(11), label(110));
}

#[test]
fn autostart_command_quotes_the_path() {
    assert_eq!(autostart_command("C:\\Tools\\winmgr.exe"), "\"C:\\Tools\\winmgr.exe\" run");
    assert_eq!(autostart_command("C:\\My Tools\\w.exe"), "\"C:\\My Tools\\w.exe\" run");
    assert_eq!(autostart_command(""), "\"\" run");
}
