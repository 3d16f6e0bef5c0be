//! Behavioural tests of the error containers, the `chain_err` family and the
//! early-return helpers, exercised through two concrete error-kind families.

use failchain::{
    bail, bail_msg, ensure, ensure_msg, BoxedError, ChainErrorKind, ErrorContainer, Fail,
    PriorFailure, ResultExt, UnboxedError,
};

#[derive(Clone, Debug, PartialEq, Eq)]
enum MetaKind {
    MetadataIo(String),
    CorruptMetadata(String),
}

impl Fail for MetaKind {
    fn message(&self) -> String {
        match self {
            MetaKind::MetadataIo(path) => format!("Metadata I/O error {:?}.", path),
            MetaKind::CorruptMetadata(description) => {
                format!("Corrupt metadata file: {}", description)
            }
        }
    }

    fn cause(&self) -> Option<&PriorFailure> {
        None
    }

    fn backtrace(&self) -> Option<&failure::Backtrace> {
        None
    }

    fn into_prior(self) -> PriorFailure {
        PriorFailure::new(self.message())
    }
}

impl ChainErrorKind for MetaKind {
    type Error = BoxedError<MetaKind>;
}

#[derive(Clone, Debug, PartialEq, Eq)]
enum WadKind {
    WadIo(String),
    CorruptWad(String),
}

impl Fail for WadKind {
    fn message(&self) -> String {
        match self {
            WadKind::WadIo(path) => format!("WAD I/O error {:?}.", path),
            WadKind::CorruptWad(description) => format!("Corrupt WAD file: {}", description),
        }
    }

    fn cause(&self) -> Option<&PriorFailure> {
        None
    }

    fn backtrace(&self) -> Option<&failure::Backtrace> {
        None
    }

    fn into_prior(self) -> PriorFailure {
        PriorFailure::new(self.message())
    }
}

impl ChainErrorKind for WadKind {
    type Error = UnboxedError<WadKind>;
}

#[test]
fn kind_is_kept_by_construction_with_cause() {
    let cause = PriorFailure::new("disk on fire".to_string());
    let kind = MetaKind::CorruptMetadata("bad header".to_string());
    let error = BoxedError::<MetaKind>::from_cause_and_kind(cause, kind.clone());
    assert_eq!(error.kind(), &kind);
}

#[test]
fn kind_is_kept_by_construction_with_cause_unboxed() {
    let cause = PriorFailure::new("disk on fire".to_string());
    let kind = WadKind::WadIo("/w.wad".to_string());
    let error = UnboxedError::<WadKind>::from_cause_and_kind(cause, kind.clone());
    assert_eq!(error.kind(), &kind);
}

#[test]
fn cause_matches_the_supplied_failure() {
    let cause = PriorFailure::new("disk on fire".to_string());
    let error = BoxedError::<MetaKind>::from_cause_and_kind(
        cause,
        MetaKind::MetadataIo("/m.meta".to_string()),
    );
    let stored = error.cause().expect("a cause was supplied");
    assert_eq!(stored.message(), "disk on fire");
    assert!(stored.cause().is_none());
}

#[test]
fn no_cause_means_cause_is_none() {
    let error = BoxedError::<MetaKind>::from_kind(MetaKind::MetadataIo("/m.meta".to_string()));
    assert!(error.cause().is_none());
    let error = UnboxedError::<WadKind>::from_kind(WadKind::CorruptWad("short".to_string()));
    assert!(error.cause().is_none());
}

#[test]
fn construction_captures_a_backtrace() {
    let error = BoxedError::<MetaKind>::from_kind(MetaKind::MetadataIo("/m.meta".to_string()));
    assert!(error.backtrace().is_some());
    let error = UnboxedError::<WadKind>::from_kind(WadKind::WadIo("/w.wad".to_string()));
    assert!(error.backtrace().is_some());
}

#[test]
fn display_shows_the_kind_message_only() {
    let cause = PriorFailure::new("disk on fire".to_string());
    let error = BoxedError::<MetaKind>::from_cause_and_kind(
        cause,
        MetaKind::CorruptMetadata("bad header".to_string()),
    );
    assert_eq!(error.display(), "Corrupt metadata file: bad header");
}

#[test]
fn display_twice_is_identical() {
    let error = BoxedError::<MetaKind>::from_kind(MetaKind::MetadataIo("/m.meta".to_string()));
    let first = error.display();
    let second = error.display();
    assert_eq!(first, second);
}

#[test]
fn chain_err_wraps_failure_and_keeps_it_as_cause() {
    let outcome: Result<u32, PriorFailure> =
        Err(PriorFailure::new("file not found".to_string()));
    let chained = outcome.chain_err(|| MetaKind::MetadataIo("/m.meta".to_string()));
    let error = chained.expect_err("a failure stays a failure");
    assert_eq!(error.kind(), &MetaKind::MetadataIo("/m.meta".to_string()));
    assert_eq!(error.cause().expect("cause kept").message(), "file not found");
}

#[test]
fn chain_err_leaves_success_untouched() {
    let outcome: Result<u32, PriorFailure> = Ok(17);
    let chained = outcome.chain_err(|| MetaKind::MetadataIo("/m.meta".to_string()));
    assert_eq!(chained.expect("success passes through"), 17);
}

#[test]
fn chain_three_times_gives_depth_four_in_reverse_order() {
    let original: Result<(), PriorFailure> = Err(PriorFailure::new("level zero".to_string()));
    let first = original.chain_err(|| MetaKind::CorruptMetadata("level one".to_string()));
    let second = first.chain_err(|| WadKind::CorruptWad("level two".to_string()));
    let third = second.chain_err(|| MetaKind::CorruptMetadata("level three".to_string()));

    let outermost = third.expect_err("still a failure");
    assert_eq!(
        outermost.kind(),
        &MetaKind::CorruptMetadata("level three".to_string())
    );

    // Walking the chain from the outermost error visits each wrapped kind in
    // the reverse of the order the wraps were applied, then the original.
    let mut messages = Vec::new();
    let mut link = outermost.cause();
    while let Some(prior) = link {
        messages.push(prior.message());
        link = prior.cause();
    }
    assert_eq!(
        messages,
        vec![
            "Corrupt WAD file: level two".to_string(),
            "Corrupt metadata file: level one".to_string(),
            "level zero".to_string(),
        ]
    );
    // The original counts as depth 1; three wraps make the chain four deep.
    assert_eq!(messages.len() + 1, 4);
}

#[test]
fn chain_inspect_err_sees_the_original_failure() {
    let outcome: Result<(), PriorFailure> =
        Err(PriorFailure::new("checksum mismatch".to_string()));
    let chained = outcome.chain_inspect_err(|original| {
        if original.message().contains("checksum") {
            MetaKind::CorruptMetadata("bad checksum".to_string())
        } else {
            MetaKind::MetadataIo("/m.meta".to_string())
        }
    });
    let error = chained.expect_err("a failure stays a failure");
    assert_eq!(
        error.kind(),
        &MetaKind::CorruptMetadata("bad checksum".to_string())
    );
    assert_eq!(
        error.cause().expect("cause kept").message(),
        "checksum mismatch"
    );
}

#[test]
fn replace_err_consumes_the_original_and_starts_fresh() {
    let outcome: Result<(), PriorFailure> = Err(PriorFailure::new("raw failure".to_string()));
    let replaced = outcome.replace_err(|original| {
        MetaKind::CorruptMetadata(format!("swallowed: {}", original.message()))
    });
    let error = replaced.expect_err("a failure stays a failure");
    assert_eq!(
        error.kind(),
        &MetaKind::CorruptMetadata("swallowed: raw failure".to_string())
    );
    assert!(error.cause().is_none());
}

fn guarded(flag: bool) -> Result<u32, BoxedError<MetaKind>> {
    ensure(flag, MetaKind::CorruptMetadata("guard failed".to_string()))?;
    Ok(5)
}

#[test]
fn ensure_true_continues_past_the_call() {
    assert_eq!(guarded(true).expect("guard passed"), 5);
}

#[test]
fn ensure_false_returns_the_kind() {
    let error = guarded(false).expect_err("guard failed");
    assert_eq!(
        error.kind(),
        &MetaKind::CorruptMetadata("guard failed".to_string())
    );
    assert!(error.cause().is_none());
}

#[test]
fn bail_returns_immediately_with_the_kind() {
    let outcome: Result<u32, BoxedError<MetaKind>> =
        bail(MetaKind::MetadataIo("/m.meta".to_string()));
    let error = outcome.expect_err("bail always fails");
    assert_eq!(error.kind(), &MetaKind::MetadataIo("/m.meta".to_string()));
}

#[test]
fn bail_with_constructor_formats_the_kind_argument() {
    let limit = 3;
    let outcome: Result<u32, BoxedError<MetaKind>> =
        bail_msg(MetaKind::CorruptMetadata, format!("fmt {}", limit));
    let error = outcome.expect_err("bail always fails");
    assert_eq!(
        error.kind(),
        &MetaKind::CorruptMetadata(format!("fmt {}", limit))
    );
}

#[test]
fn missing_file_scenario_keeps_path_and_io_cause() {
    // What a wrapped file-open of a path that does not exist hands back.
    let path = "/tmp/missing.meta";
    let open_outcome: Result<u32, PriorFailure> = Err(PriorFailure::new(
        "No such file or directory (os error 2)".to_string(),
    ));
    let chained = open_outcome.chain_err(|| MetaKind::MetadataIo(path.to_string()));
    let error = chained.expect_err("open failed");
    assert_eq!(error.kind(), &MetaKind::MetadataIo("/tmp/missing.meta".to_string()));
    let cause = error.cause().expect("the I/O failure is kept");
    assert_eq!(cause.message(), "No such file or directory (os error 2)");
}

#[test]
fn short_metadata_scenario_reports_corrupt_metadata() {
    let path = "/tmp/short.meta";
    let metadata = "x".repeat(50);
    let outcome = ensure_msg(
        metadata.len() > 100,
        MetaKind::CorruptMetadata,
        format!("metadata file {:?} is too long", path),
    );
    let error = outcome.expect_err("fifty bytes is under the threshold");
    assert_eq!(
        error.kind(),
        &MetaKind::CorruptMetadata("metadata file \"/tmp/short.meta\" is too long".to_string())
    );
}

#[test]
fn prior_failure_with_cause_builds_a_two_link_chain() {
    let deeper = PriorFailure::new("root".to_string());
    let prior = PriorFailure::with_cause("middle".to_string(), deeper);
    assert_eq!(prior.message(), "middle");
    let tail = prior.cause().expect("the deeper link is kept");
    assert_eq!(tail.message(), "root");
    assert!(tail.cause().is_none());
}

#[test]
fn error_itself_chains_as_a_prior_failure() {
    let inner = UnboxedError::<WadKind>::from_kind(WadKind::WadIo("/w.wad".to_string()));
    let prior = inner.into_prior();
    assert_eq!(prior.message(), "WAD I/O error \"/w.wad\".");
    assert!(prior.cause().is_none());
}
