use hyperscan_regex::constants::{
    HS_BAD_ALLOC, HS_DB_VERSION_ERROR, HS_FLAG_CASELESS, HS_FLAG_DOTALL, HS_FLAG_MULTILINE,
    HS_FLAG_SOM_LEFTMOST, HS_FLAG_UCP, HS_FLAG_UTF8, HS_INVALID, HS_MODE_BLOCK, HS_MODE_STREAM,
    HS_MODE_VECTORED, HS_NOMEM, HS_SCAN_TERMINATED, HS_SUCCESS,
};
use hyperscan_regex::error::Error;
use hyperscan_regex::options::{Block, RegexBuilder, RegexOptions, Streaming, Type, Vectored};

#[test]
fn default_options_compile_with_unicode() {
    let o = RegexOptions::default();
    assert!(o.expression.is_none());
    assert_eq!(o.flags(), 352);
    assert_eq!(o.flags(), HS_FLAG_SOM_LEFTMOST | HS_FLAG_UTF8 | HS_FLAG_UCP);
}

#[test]
fn builder_sets_each_switch() {
    let mut b = RegexBuilder::new("a.b");
    assert_eq!(b.0.expression.as_deref(), Some("a.b"));
    b.case_insensitive(true).multi_line(true).dot_matches_new_line(true).unicode(false);
    assert_eq!(
        b.0.flags(),
        HS_FLAG_SOM_LEFTMOST | HS_FLAG_UTF8 | HS_FLAG_CASELESS | HS_FLAG_MULTILINE | HS_FLAG_DOTALL
    );
    b.unicode(true).case_insensitive(false);
    assert_eq!(b.0.flags(), 256 | 32 | 4 | 2 | 64);
}

#[test]
fn modes() {
    assert_eq!(Block::mode(), HS_MODE_BLOCK);
    assert_eq!(Streaming::mode(), HS_MODE_STREAM);
    assert_eq!(Vectored::mode(), HS_MODE_VECTORED);
    assert_eq!((Block::mode(), Streaming::mode(), Vectored::mode()), (1, 2, 4));
}

#[test]
fn error_codes_map_to_errors() {
    assert!(matches!(Error::from(HS_SUCCESS), Error::Success));
    assert!(matches!(Error::from(HS_INVALID), Error::Invalid));
    assert!(matches!(Error::from(HS_NOMEM), Error::NoMem));
    assert!(matches!(Error::from(HS_SCAN_TERMINATED), Error::ScanTerminated));
    assert!(matches!(Error::from(HS_DB_VERSION_ERROR), Error::DbVersionError));
    assert!(matches!(Error::from(-6), Error::DbPlatformError));
    assert!(matches!(Error::from(-7), Error::DbModeError));
    assert!(matches!(Error::from(-8), Error::BadAlign));
    assert!(matches!(Error::from(HS_BAD_ALLOC), Error::BadAlloc));
    assert!(matches!(Error::from(-4), Error::Failed(-4)));
    assert!(matches!(Error::from(42), Error::Failed(42)));
}

#[test]
fn error_descriptions() {
    assert_eq!(Error::Success.description(), "The engine completed normally.");
    assert_eq!(Error::Failed(3).description(), "Failed.");
    assert_eq!(Error::ScanTerminated.description(), "The engine was terminated by callback.");
    assert_eq!(
        Error::CompilerError("bad".to_string()).description(),
        "The pattern compiler failed."
    );
    assert_eq!(
        Error::DbPlatformError.description(),
        "The given database was built for a different platform."
    );
}

#[test]
fn options_without_expression_give_compile_error() {
    let o = RegexOptions::default();
    match o.expression_and_flags() {
        Err(Error::CompilerError(m)) => assert_eq!(m, "missed expression"),
        _ => panic!("expected a compile error"),
    }
}

#[test]
fn options_with_expression_give_it_with_flags() {
    let mut b = RegexBuilder::new("[0-9]+");
    b.case_insensitive(true);
    let (e, f) = b.0.expression_and_flags().unwrap();
    assert_eq!(e, "[0-9]+");
    assert_eq!(f, 256 | 32 | 1 | 64);
}
