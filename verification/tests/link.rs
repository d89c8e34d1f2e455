use aloxide::link::{LinkDirective, RubyLinkError, SearchPathKind};
use aloxide::Ruby;
use aloxide::version::Version;

fn assert_static(d: &LinkDirective, name: &str) {
    match d {
        LinkDirective::StaticLibrary(n) => assert_eq!(n, name),
        other => panic!("expected StaticLibrary({name}), got {other:?}"),
    }
}

fn assert_dynamic(d: &LinkDirective, name: &str) {
    match d {
        LinkDirective::DynamicLibrary(n) => assert_eq!(n, name),
        other => panic!("expected DynamicLibrary({name}), got {other:?}"),
    }
}

fn assert_framework(d: &LinkDirective, name: &str) {
    match d {
        LinkDirective::Framework(n) => assert_eq!(n, name),
        other => panic!("expected Framework({name}), got {other:?}"),
    }
}

fn assert_search(d: &LinkDirective, kind: SearchPathKind, path: &str) {
    match d {
        LinkDirective::SearchPath(k, p) => {
            assert_eq!(*k, kind);
            assert_eq!(p, path);
        },
        other => panic!("expected SearchPath({kind:?}, {path}), got {other:?}"),
    }
}

#[test]
fn translate_classifies_and_deduplicates() {
    let dirs = aloxide::link::translate_link_args(
        false,
        false,
        "ruby",
        "-lruby -lm -L/usr/lib -framework CoreFoundation",
        "",
        "-lm",
    )
    .unwrap();
    assert_eq!(dirs.len(), 4);
    assert_dynamic(&dirs[0], "ruby");
    assert_dynamic(&dirs[1], "m");
    assert_search(&dirs[2], SearchPathKind::Native, "/usr/lib");
    assert_framework(&dirs[3], "CoreFoundation");
}

#[test]
fn translate_static_head() {
    let dirs =
        aloxide::link::translate_link_args(true, false, "ruby-static", "-lruby-static", "", "")
            .unwrap();
    assert_eq!(dirs.len(), 1);
    assert_static(&dirs[0], "ruby-static");
}

#[test]
fn empty_args_always_missing_libs() {
    for static_lib in [false, true] {
        match aloxide::link::translate_link_args(static_lib, false, "ruby", "", "-lm", "-lc")
            .unwrap_err()
        {
            RubyLinkError::MissingLibs { static_lib: s } => assert_eq!(s, static_lib),
            other => panic!("expected MissingLibs, got {other:?}"),
        }
        match aloxide::link::translate_link_args(static_lib, false, "ruby", "  \t ", "", "")
            .unwrap_err()
        {
            RubyLinkError::MissingLibs { static_lib: s } => assert_eq!(s, static_lib),
            other => panic!("expected MissingLibs, got {other:?}"),
        }
    }
}

#[test]
fn compiler_passthrough_flags_are_ignored() {
    let dirs = aloxide::link::translate_link_args(
        false,
        false,
        "ruby",
        "-Wl,--compress-debug-sections=zlib -lpthread",
        "",
        "",
    )
    .unwrap();
    assert_eq!(dirs.len(), 2);
    assert_dynamic(&dirs[0], "ruby");
    assert_dynamic(&dirs[1], "pthread");
}

#[test]
fn framework_search_path() {
    let dirs = aloxide::link::translate_link_args(
        false,
        false,
        "ruby",
        "-F/Library/Frameworks -framework Foundation",
        "",
        "",
    )
    .unwrap();
    assert_eq!(dirs.len(), 3);
    assert_dynamic(&dirs[0], "ruby");
    assert_search(&dirs[1], SearchPathKind::Framework, "/Library/Frameworks");
    assert_framework(&dirs[2], "Foundation");
}

#[test]
fn unknown_flag_is_fatal() {
    match aloxide::link::translate_link_args(false, false, "ruby", "-lruby +bogus", "", "")
        .unwrap_err()
    {
        RubyLinkError::UnknownFlags(s) => assert_eq!(s, "-lruby +bogus"),
        other => panic!("expected UnknownFlags, got {other:?}"),
    }
    match aloxide::link::translate_link_args(false, false, "ruby", "x", "", "").unwrap_err() {
        RubyLinkError::UnknownFlags(s) => assert_eq!(s, "x"),
        other => panic!("expected UnknownFlags, got {other:?}"),
    }
}

#[test]
fn trailing_framework_flag_is_fatal() {
    match aloxide::link::translate_link_args(false, false, "ruby", "-lm -framework", "", "")
        .unwrap_err()
    {
        RubyLinkError::MissingFramework(s) => assert_eq!(s, "-lm -framework"),
        other => panic!("expected MissingFramework, got {other:?}"),
    }
}

#[test]
fn msvc_skips_primary_args() {
    let dirs = aloxide::link::translate_link_args(
        false,
        true,
        "x64-vcruntime140-ruby260",
        "anything-goes-here",
        "user32.lib kernel32.lib",
        "user32.lib",
    )
    .unwrap();
    assert_eq!(dirs.len(), 3);
    assert_dynamic(&dirs[0], "x64-vcruntime140-ruby260");
    assert_dynamic(&dirs[1], "user32");
    assert_dynamic(&dirs[2], "kernel32");
}

#[test]
fn nil_aux_libs_are_ignored() {
    let dirs = aloxide::link::translate_link_args(true, false, "ruby", "-lruby", "", "nil")
        .unwrap();
    assert_eq!(dirs.len(), 1);
    assert_static(&dirs[0], "ruby");
}

#[test]
fn ruby_link_emits_search_path_first() {
    let config = vec![
        ("target".to_string(), "x86_64-unknown-linux-gnu".to_string()),
        ("RUBY_SO_NAME".to_string(), "ruby".to_string()),
        (
            "LIBRUBYARG_SHARED".to_string(),
            "-lruby -lm -L/usr/lib -framework CoreFoundation".to_string(),
        ),
        ("SOLIBS".to_string(), "".to_string()),
        ("LIBS".to_string(), "-lm".to_string()),
    ];
    let ruby = Ruby::new(Version::new(2, 6, 0), "/opt/rubies/2.6.0".to_string())
        .with_config(config);
    let dirs = ruby.link(false).unwrap();
    assert_eq!(dirs.len(), 5);
    assert_search(&dirs[0], SearchPathKind::Native, "/opt/rubies/2.6.0/lib");
    assert_dynamic(&dirs[1], "ruby");
    assert_dynamic(&dirs[2], "m");
    assert_search(&dirs[3], SearchPathKind::Native, "/usr/lib");
    assert_framework(&dirs[4], "CoreFoundation");
}

#[test]
fn ruby_link_msvc_target() {
    let config = vec![
        ("target".to_string(), "x64-mswin64_140".to_string()),
        ("RUBY_SO_NAME".to_string(), "x64-vcruntime140-ruby260".to_string()),
        ("LIBRUBYARG_SHARED".to_string(), "x64-vcruntime140-ruby260.lib".to_string()),
        ("SOLIBS".to_string(), "user32.lib".to_string()),
        ("LIBS".to_string(), "nil".to_string()),
    ];
    let ruby = Ruby::new(Version::new(2, 6, 0), "C:/rubies/2.6.0".to_string())
        .with_config(config);
    let dirs = ruby.link(false).unwrap();
    assert_eq!(dirs.len(), 3);
    assert_search(&dirs[0], SearchPathKind::Native, "C:/rubies/2.6.0/lib");
    assert_dynamic(&dirs[1], "x64-vcruntime140-ruby260");
    assert_dynamic(&dirs[2], "user32");
}

#[test]
fn ruby_link_missing_libs() {
    let config = vec![
        ("target".to_string(), "x86_64-unknown-linux-gnu".to_string()),
        ("RUBY_SO_NAME".to_string(), "ruby".to_string()),
    ];
    let ruby = Ruby::new(Version::new(2, 6, 0), "/opt/ruby".to_string()).with_config(config);
    match ruby.link(true).unwrap_err() {
        RubyLinkError::MissingLibs { static_lib } => assert!(static_lib),
        other => panic!("expected MissingLibs, got {other:?}"),
    }
}
