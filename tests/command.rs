use pstoedit::buffers::c_buffer;
use pstoedit::{Command, Error};

fn buffers(cmd: &Command) -> Vec<Vec<u8>> {
    let n = cmd.argc() as usize;
    (0..n).map(|i| cmd.arg_buffer(i).clone()).collect()
}

#[test]
fn arg_gs() {
    let mut cmd = Command::new();
    cmd.arg("-gstest").unwrap().gs("gs").unwrap();
    assert_eq!(cmd.argc(), 2);
    assert_eq!(buffers(&cmd), vec![b"pstoedit\0".to_vec(), b"-gstest\0".to_vec()]);
    assert_eq!(cmd.gs_buffer(), Some(&b"gs\0".to_vec()));
}

#[test]
fn args_gs() {
    let mut cmd = Command::new();
    cmd.args_slice(&["-gstest"]).unwrap().gs("gs").unwrap();
    assert_eq!(cmd.argc(), 2);
    assert_eq!(buffers(&cmd), vec![b"pstoedit\0".to_vec(), b"-gstest\0".to_vec()]);
    assert_eq!(cmd.gs_buffer(), Some(&b"gs\0".to_vec()));
}

#[test]
fn new_holds_program_name_only() {
    let cmd = Command::new();
    assert_eq!(cmd.argc(), 1);
    assert_eq!(cmd.arg_buffer(0), &b"pstoedit\0".to_vec());
    assert_eq!(cmd.gs_buffer(), None);
    let cmd = Command::default();
    assert_eq!(buffers(&cmd), vec![b"pstoedit\0".to_vec()]);
}

#[test]
fn arg_round_trips_bytes() {
    let mut cmd = Command::new();
    cmd.arg("input file.ps").unwrap();
    cmd.arg("").unwrap();
    cmd.arg("é").unwrap();
    let b = buffers(&cmd);
    assert_eq!(b[1], b"input file.ps\0".to_vec());
    assert_eq!(b[2], vec![0u8]);
    assert_eq!(b[3], vec![0xc3u8, 0xa9, 0]);
    assert_eq!(&b[1][..b[1].len() - 1], "input file.ps".as_bytes());
}

#[test]
fn arg_with_nul_is_refused() {
    let mut cmd = Command::new();
    cmd.arg("-f").unwrap();
    match cmd.arg("ab\0cd") {
        Err(Error::NulError(e)) => {
            assert_eq!(e.nul_position(), 2);
            assert_eq!(e.into_vec(), b"ab\0cd".to_vec());
        }
        _ => panic!("expected a nul error"),
    }
    assert_eq!(buffers(&cmd), vec![b"pstoedit\0".to_vec(), b"-f\0".to_vec()]);
}

#[test]
fn gs_with_nul_is_refused() {
    let mut cmd = Command::new();
    cmd.gs("gs").unwrap();
    assert!(matches!(cmd.gs("g\0s"), Err(Error::NulError(_))));
    assert_eq!(cmd.gs_buffer(), Some(&b"gs\0".to_vec()));
}

#[test]
fn args_keep_order() {
    let mut cmd = Command::new();
    cmd.args(vec!["-f".to_string(), "latex2e".to_string(), "input.ps".to_string()])
        .unwrap();
    assert_eq!(
        buffers(&cmd),
        vec![
            b"pstoedit\0".to_vec(),
            b"-f\0".to_vec(),
            b"latex2e\0".to_vec(),
            b"input.ps\0".to_vec()
        ]
    );
}

#[test]
fn args_stop_at_first_nul() {
    let mut cmd = Command::new();
    let r = cmd.args(vec!["a".to_string(), "b\0".to_string(), "c".to_string()]);
    assert!(matches!(r, Err(Error::NulError(_))));
    assert_eq!(buffers(&cmd), vec![b"pstoedit\0".to_vec(), b"a\0".to_vec()]);

    let mut cmd = Command::new();
    let r = cmd.args_slice(&["x", "y", "\0", "z"]);
    assert!(matches!(r, Err(Error::NulError(_))));
    assert_eq!(
        buffers(&cmd),
        vec![b"pstoedit\0".to_vec(), b"x\0".to_vec(), b"y\0".to_vec()]
    );
}

#[test]
fn many_args_spill_to_heap() {
    let mut cmd = Command::new();
    for i in 0..20 {
        cmd.arg(&i.to_string()).unwrap();
    }
    assert_eq!(cmd.argc(), 21);
    assert_eq!(cmd.arg_buffer(20), &b"19\0".to_vec());
    assert_eq!(cmd.arg_buffer(5), &b"4\0".to_vec());
}

#[test]
fn c_buffer_appends_one_nul() {
    assert_eq!(c_buffer(b"abc".to_vec()).unwrap(), b"abc\0".to_vec());
    assert_eq!(c_buffer(Vec::new()).unwrap(), vec![0u8]);
    let e = c_buffer(b"a\0b\0".to_vec()).unwrap_err();
    assert_eq!(e.position, 1);
    assert_eq!(e.bytes, b"a\0b\0".to_vec());
}

#[test]
fn command_is_reusable() {
    let mut cmd = Command::new();
    cmd.arg("-gstest").unwrap();
    let first = buffers(&cmd);
    let second = buffers(&cmd);
    assert_eq!(first, second);
}
