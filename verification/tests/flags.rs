use dftbplus_build::flags::{CcFlag, CcFlags, WithSpace, WithoutSpace};

fn s(text: &str) -> String {
    text.to_string()
}

fn every_variant() -> Vec<CcFlag> {
    vec![
        CcFlag::Define(s("FOO"), None),
        CcFlag::Define(s("FOO"), Some(s("1"))),
        CcFlag::IncludeDir(s("/usr/include/x")),
        CcFlag::LibDir(s("/usr/lib/x")),
        CcFlag::Lib(s("iberty")),
        CcFlag::Other(s("-pthread")),
    ]
}

#[test]
fn define_without_value_has_no_equals_sign() {
    let flag = CcFlag::Define(s("FOO"), None);
    assert_eq!(WithoutSpace(&flag).to_string(), "-DFOO");
    assert_eq!(WithSpace(&flag).to_string(), "-D FOO");
}

#[test]
fn define_with_value_joins_by_equals_sign() {
    let flag = CcFlag::Define(s("FOO"), Some(s("1")));
    assert_eq!(WithoutSpace(&flag).to_string(), "-DFOO=1");
    assert_eq!(WithSpace(&flag).to_string(), "-D FOO=1");
}

#[test]
fn define_with_empty_value_keeps_equals_sign() {
    let flag = CcFlag::Define(s("FOO"), Some(s("")));
    assert_eq!(WithoutSpace(&flag).to_string(), "-DFOO=");
}

#[test]
fn define_value_is_not_quoted_or_escaped() {
    let flag = CcFlag::Define(s("MSG"), Some(s("a b \"c\" $d")));
    assert_eq!(WithoutSpace(&flag).to_string(), "-DMSG=a b \"c\" $d");
}

#[test]
fn include_dir_fused_and_spaced() {
    let flag = CcFlag::IncludeDir(s("/usr/include/x"));
    assert_eq!(WithoutSpace(&flag).to_string(), "-I/usr/include/x");
    assert_eq!(WithSpace(&flag).to_string(), "-I /usr/include/x");
}

#[test]
fn lib_dir_fused_and_spaced() {
    let flag = CcFlag::LibDir(s("/usr/lib/x"));
    assert_eq!(WithoutSpace(&flag).to_string(), "-L/usr/lib/x");
    assert_eq!(WithSpace(&flag).to_string(), "-L /usr/lib/x");
}

#[test]
fn lib_fused_and_spaced() {
    let flag = CcFlag::Lib(s("iberty"));
    assert_eq!(WithoutSpace(&flag).to_string(), "-liberty");
    assert_eq!(WithSpace(&flag).to_string(), "-l iberty");
}

#[test]
fn other_is_passed_through_in_both_forms() {
    let flag = CcFlag::Other(s("-Wl,--as-needed -x"));
    assert_eq!(WithoutSpace(&flag).to_string(), "-Wl,--as-needed -x");
    assert_eq!(WithSpace(&flag).to_string(), "-Wl,--as-needed -x");
}

#[test]
fn fmt_with_space_puts_the_separator_after_the_letter() {
    let flag = CcFlag::Lib(s("m"));
    assert_eq!(flag.fmt_with_space(""), "-lm");
    assert_eq!(flag.fmt_with_space(" "), "-l m");
    assert_eq!(flag.fmt_with_space("::"), "-l::m");
    assert_eq!(CcFlag::Other(s("raw")).fmt_with_space("::"), "raw");
}

#[test]
fn spaced_is_fused_with_one_space_after_the_letter() {
    for flag in every_variant() {
        let fused = WithoutSpace(&flag).to_string();
        let spaced = WithSpace(&flag).to_string();
        if matches!(flag, CcFlag::Other(_)) {
            assert_eq!(fused, spaced);
        } else {
            assert_eq!(spaced.len(), fused.len() + 1);
            assert_eq!(&spaced[..2], &fused[..2]);
            assert_eq!(&spaced[2..3], " ");
            assert_eq!(&spaced[3..], &fused[2..]);
            assert_ne!(&fused[2..3], " ");
        }
    }
}

#[test]
fn to_args_keeps_the_order_of_the_flags() {
    let flags = CcFlags(vec![
        CcFlag::IncludeDir(s("/z")),
        CcFlag::Define(s("B"), Some(s("2"))),
        CcFlag::IncludeDir(s("/a")),
        CcFlag::Define(s("A"), None),
        CcFlag::IncludeDir(s("/m")),
    ]);
    let args = flags.to_args();
    assert_eq!(args, vec![s("-I/z"), s("-DB=2"), s("-I/a"), s("-DA"), s("-I/m")]);
    let mut include_positions: Vec<usize> = Vec::new();
    let mut define_positions: Vec<usize> = Vec::new();
    for (i, arg) in args.iter().enumerate() {
        if arg.starts_with("-I") {
            include_positions.push(i);
        }
        if arg.starts_with("-D") {
            define_positions.push(i);
        }
    }
    assert_eq!(include_positions, vec![0, 2, 4]);
    assert_eq!(define_positions, vec![1, 3]);
}

#[test]
fn to_args_does_not_deduplicate() {
    let flags = CcFlags(vec![
        CcFlag::Lib(s("m")),
        CcFlag::Lib(s("m")),
        CcFlag::Other(s("-pthread")),
        CcFlag::Lib(s("m")),
    ]);
    assert_eq!(flags.to_args(), vec![s("-lm"), s("-lm"), s("-pthread"), s("-lm")]);
}

#[test]
fn to_args_of_no_flags_is_empty() {
    assert!(CcFlags(Vec::new()).to_args().is_empty());
}

#[test]
fn flags_are_equal_by_variant_and_text() {
    assert!(CcFlag::Lib(s("m")) == CcFlag::Lib(s("m")));
    assert!(CcFlag::Lib(s("m")) != CcFlag::Lib(s("n")));
    assert!(CcFlag::IncludeDir(s("/x")) != CcFlag::LibDir(s("/x")));
    assert!(CcFlag::Define(s("A"), None) != CcFlag::Define(s("A"), Some(s(""))));
    assert!(CcFlag::Define(s("A"), Some(s("1"))) == CcFlag::Define(s("A"), Some(s("1"))));
    assert!(CcFlag::Define(s("A"), Some(s("1"))) != CcFlag::Define(s("A"), Some(s("2"))));
    assert!(CcFlag::Other(s("-lm")) != CcFlag::Lib(s("m")));
}
