use aloxide::version::Version;
use aloxide::{config_script, process_output, ExecOutput, Ruby, RubyExecError};

fn sample_ruby() -> Ruby {
    let config = vec![
        ("includedir".to_string(), "/opt/ruby/include".to_string()),
        ("rubyhdrdir".to_string(), "/opt/ruby/include/ruby-2.6.0".to_string()),
        (
            "rubyarchhdrdir".to_string(),
            "/opt/ruby/include/ruby-2.6.0/x86_64-linux".to_string(),
        ),
        ("RUBY_SO_NAME".to_string(), "ruby".to_string()),
        ("LIBRUBYARG".to_string(), "-lruby".to_string()),
        ("LIBS".to_string(), "-lm -lpthread".to_string()),
        ("MAINLIBS".to_string(), "-lz".to_string()),
        ("SOLIBS".to_string(), "-lm".to_string()),
    ];
    Ruby::new(Version::new(2, 6, 0), "/opt/ruby".to_string()).with_config(config)
}

#[test]
fn ruby_paths_hang_off_out_dir() {
    let ruby = Ruby::new(Version::new(2, 6, 0), "/opt/ruby".to_string());
    assert_eq!(ruby.version(), &Version::new(2, 6, 0));
    assert_eq!(ruby.out_dir(), "/opt/ruby");
    assert_eq!(ruby.lib_dir(), "/opt/ruby/lib");
    assert_eq!(ruby.bin_path(), "/opt/ruby/bin/ruby");
}

#[test]
fn config_values_come_from_the_store() {
    let ruby = sample_ruby();
    assert_eq!(ruby.get_config("RUBY_SO_NAME").unwrap(), "ruby");
    assert_eq!(ruby.get_config("no-such-key").unwrap(), "");
    assert_eq!(ruby.include_dir().unwrap(), "/opt/ruby/include");
    assert_eq!(ruby.header_dir().unwrap(), "/opt/ruby/include/ruby-2.6.0");
    assert_eq!(
        ruby.arch_header_dir().unwrap(),
        "/opt/ruby/include/ruby-2.6.0/x86_64-linux"
    );
    assert_eq!(ruby.lib_args().unwrap(), "-lruby");
    assert_eq!(ruby.libs().unwrap(), "-lm -lpthread");
    assert_eq!(ruby.main_libs().unwrap(), "-lz");
    assert_eq!(ruby.so_libs().unwrap(), "-lm");
}

#[test]
fn first_store_entry_wins() {
    let config = vec![
        ("LIBS".to_string(), "first".to_string()),
        ("LIBS".to_string(), "second".to_string()),
    ];
    let ruby = Ruby::new(Version::new(2, 6, 0), "/opt/ruby".to_string()).with_config(config);
    assert_eq!(ruby.libs().unwrap(), "first");
}

#[test]
fn lib_name_appends_static_suffix() {
    let ruby = sample_ruby();
    assert_eq!(ruby.lib_name(false).unwrap(), "ruby");
    assert_eq!(ruby.lib_name(true).unwrap(), "ruby-static");
}

#[test]
fn aux_libs_select_by_linkage() {
    let ruby = sample_ruby();
    assert_eq!(ruby.aux_libs(false).unwrap(), "-lm -lpthread");
    assert_eq!(ruby.aux_libs(true).unwrap(), "-lz");
}

#[test]
fn config_script_wraps_key() {
    assert_eq!(
        config_script("RUBY_PROGRAM_VERSION"),
        "print RbConfig::CONFIG['RUBY_PROGRAM_VERSION']"
    );
}

#[test]
fn process_output_decodes_success() {
    let ok = ExecOutput { success: true, stdout: b"2.6.0".to_vec(), stderr: Vec::new() };
    assert_eq!(process_output(ok).unwrap(), "2.6.0");

    let failed = ExecOutput { success: false, stdout: b"x".to_vec(), stderr: b"y".to_vec() };
    match process_output(failed).unwrap_err() {
        RubyExecError::RunFail(o) => {
            assert_eq!(o.stdout, b"x".to_vec());
            assert_eq!(o.stderr, b"y".to_vec());
        },
        other => panic!("expected RunFail, got {other:?}"),
    }

    let garbled = ExecOutput { success: true, stdout: vec![0xc3, 0x28], stderr: Vec::new() };
    match process_output(garbled).unwrap_err() {
        RubyExecError::Utf8Error(b) => assert_eq!(b, vec![0xc3, 0x28]),
        other => panic!("expected Utf8Error, got {other:?}"),
    }

    let accented = ExecOutput {
        success: true,
        stdout: "caf\u{e9}".as_bytes().to_vec(),
        stderr: Vec::new(),
    };
    assert_eq!(process_output(accented).unwrap(), "caf\u{e9}");
}
