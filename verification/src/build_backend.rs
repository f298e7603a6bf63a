//! Choice of the build backend a Poetry project is migrated to, and of its
//! `[build-system]` section.
use crate::errors::{MigrationError, MigrationErrorView};
use crate::options::{BuildBackend, ConverterOptions};
use crate::pep440::{
    parse_version, pep440_greater, pep440_is_stable, pep440_normalized, pep440_parses,
    pep440_release,
};
use crate::style::{bold, bold_text};
use crate::text::{decimal, push_decimal, str_eq};
use vstd::prelude::*;
use vstd::string::*;

verus! {

/// A distribution format of a Python package.
#[derive(Clone, Copy, PartialEq, Eq, Debug, Structural)]
pub enum Format {
    Sdist,
    Wheel,
}

/// A value that may be written either alone or as a list.
#[derive(Clone, Debug)]
pub enum SingleOrVec<T> {
    Single(T),
    Vec(Vec<T>),
}

/// The `[build-system]` section of `pyproject.toml`.
#[derive(Clone, Debug)]
pub struct BuildSystem {
    pub requires: Vec<String>,
    pub build_backend: Option<String>,
}

/// The mathematical content of a [`BuildSystem`].
pub struct BuildSystemView {
    pub requires: Seq<Seq<char>>,
    pub build_backend: Option<Seq<char>>,
}

impl View for BuildSystem {
    type V = BuildSystemView;

    open spec fn view(&self) -> BuildSystemView {
        BuildSystemView {
            requires: self.requires.deep_view(),
            build_backend: self.build_backend.deep_view(),
        }
    }
}

/// The view of an optional [`BuildSystem`].
pub open spec fn build_system_view(b: Option<BuildSystem>) -> Option<BuildSystemView> {
    match b {
        Some(b) => Some(b@),
        None => None,
    }
}

/// The build backend a project is migrated to, with its configuration: that of the uv build
/// backend (`U`) or that of Hatch (`H`).
#[derive(Clone, Debug)]
pub enum BuildBackendObject<U, H> {
    Uv(U),
    Hatch(H),
}

/// The name under which a build backend is shown to the user.
pub open spec fn backend_name<U, H>(backend: BuildBackendObject<U, H>) -> Seq<char> {
    match backend {
        BuildBackendObject::Uv(_) => "uv"@,
        BuildBackendObject::Hatch(_) => "Hatch"@,
    }
}

impl<U, H> BuildBackendObject<U, H> {
    /// The name under which the backend is shown to the user.
    pub fn display_name(&self) -> (r: String)
        ensures
            r@ == backend_name(*self),
    {
        match self {
            BuildBackendObject::Uv(_) => String::from_str("uv"),
            BuildBackendObject::Hatch(_) => String::from_str("Hatch"),
        }
    }
}

/// To which distributions an item of Poetry's `packages` goes, as (sdist, wheel): both when no
/// format is given.
pub open spec fn packages_distribution(format: Option<SingleOrVec<Format>>) -> (bool, bool) {
    match format {
        None => (true, true),
        Some(SingleOrVec::Single(Format::Sdist)) => (true, false),
        Some(SingleOrVec::Single(Format::Wheel)) => (false, true),
        Some(SingleOrVec::Vec(v)) => (v@.contains(Format::Sdist), v@.contains(Format::Wheel)),
    }
}

/// To which distributions an item of Poetry's `include` goes, as (sdist, wheel): only the
/// sdist when no format is given.
pub open spec fn include_distribution(format: Option<SingleOrVec<Format>>) -> (bool, bool) {
    match format {
        None => (true, false),
        Some(SingleOrVec::Single(Format::Sdist)) => (true, false),
        Some(SingleOrVec::Single(Format::Wheel)) => (false, true),
        Some(SingleOrVec::Vec(v)) => (v@.contains(Format::Sdist), v@.contains(Format::Wheel)),
    }
}

fn contains_format(formats: &Vec<Format>, format: Format) -> (r: bool)
    ensures
        r == formats@.contains(format),
{
    let mut i: usize = 0;
    while i < formats.len()
        invariant
            i <= formats.len(),
            forall|k: int| 0 <= k < i ==> formats@[k] != format,
        decreases formats.len() - i,
    {
        if formats[i] == format {
            assert(formats@[i as int] == format);
            return true;
        }
        i = i + 1;
    }
    false
}

/// Get the distributions to include an item from `packages` to.
pub fn get_packages_distribution_format(format: Option<&SingleOrVec<Format>>) -> (r: (
    bool,
    bool,
))
    ensures
        r == packages_distribution(clone_of(format)),
{
    match format {
        None => (true, true),
        Some(SingleOrVec::Single(Format::Sdist)) => (true, false),
        Some(SingleOrVec::Single(Format::Wheel)) => (false, true),
        // An empty list means that the item goes to no distribution at all.
        Some(SingleOrVec::Vec(v)) => (
            contains_format(v, Format::Sdist),
            contains_format(v, Format::Wheel),
        ),
    }
}

/// Get the distributions to include an item from `include` to.
pub fn get_include_distribution_format(format: Option<&SingleOrVec<Format>>) -> (r: (
    bool,
    bool,
))
    ensures
        r == include_distribution(clone_of(format)),
{
    match format {
        // With no format, files are only added to the sdist.
        None | Some(SingleOrVec::Single(Format::Sdist)) => (true, false),
        Some(SingleOrVec::Single(Format::Wheel)) => (false, true),
        // An empty list means that the item goes to no distribution at all.
        Some(SingleOrVec::Vec(v)) => (
            contains_format(v, Format::Sdist),
            contains_format(v, Format::Wheel),
        ),
    }
}

/// The value an optional reference points to.
pub open spec fn clone_of<T>(o: Option<&T>) -> Option<T> {
    match o {
        Some(t) => Some(*t),
        None => None,
    }
}

/// The oldest uv release whose build backend is stable.
pub open spec fn min_uv_build_version() -> Seq<char> {
    "0.7.19"@
}

/// The `uv_build` requirement used when no usable uv version is known.
pub open spec fn default_uv_build_requirement() -> Seq<char> {
    "uv_build>=0.12.0,<0.13"@
}

/// The `uv_build` bounds for an installed uv that is `stable` or not, `at_least_minimum` (not
/// older than the first stable build backend) or not, with the release numbers `release` and the
/// normalized rendering `normalized`: from that version up to the next minor one when the
/// version is stable, not older than the minimum and made of three release numbers; the default
/// bounds otherwise.
pub open spec fn bounds_for(
    stable: bool,
    at_least_minimum: bool,
    release: Seq<u64>,
    normalized: Seq<char>,
) -> Seq<char> {
    if stable && at_least_minimum && release.len() == 3 {
        "uv_build>="@ + normalized + ",<"@ + decimal(release[0] as nat) + "."@ + decimal(
            (release[1] + 1) as nat,
        ) + ".0"@
    } else {
        default_uv_build_requirement()
    }
}

/// The `uv_build` requirement for the installed uv, whose version string is `raw_version`:
/// from that version up to the next minor one, when the version is stable, greater than or
/// equal to the first stable build backend and made of three release numbers; the default
/// bounds otherwise.
pub open spec fn uv_build_requirement(raw_version: Option<Seq<char>>) -> Seq<char> {
    match raw_version {
        Some(t) => {
            if pep440_parses(t) && pep440_parses(min_uv_build_version()) {
                bounds_for(
                    pep440_is_stable(t),
                    !pep440_greater(min_uv_build_version(), t),
                    pep440_release(t),
                    pep440_normalized(t),
                )
            } else {
                default_uv_build_requirement()
            }
        },
        None => default_uv_build_requirement(),
    }
}

/// What the version of the installed uv says about the `uv_build` bounds.
pub struct InstalledUvVersion {
    /// Neither a pre-release nor a dev release.
    pub stable: bool,
    /// Greater than or equal to the first version with a stable build backend.
    pub at_least_minimum: bool,
    /// The release numbers.
    pub release: Vec<u64>,
    /// The normalized rendering of the version.
    pub normalized: String,
}

/// The `uv_build` requirement for the installed uv as `installed` describes it, or the default
/// bounds when no usable version of uv is known.
pub fn uv_build_bounds(installed: Option<InstalledUvVersion>) -> (r: String)
    ensures
        r@ == match installed {
            Some(v) => bounds_for(v.stable, v.at_least_minimum, v.release@, v.normalized@),
            None => default_uv_build_requirement(),
        },
{
    let v = match installed {
        Some(v) => v,
        None => {
            return String::from_str("uv_build>=0.12.0,<0.13");
        },
    };
    if !(v.stable && v.at_least_minimum && v.release.len() == 3) {
        return String::from_str("uv_build>=0.12.0,<0.13");
    }
    let mut r = String::from_str("uv_build>=");
    r.append(v.normalized.as_str());
    r.append(",<");
    push_decimal(&mut r, v.release[0] as u128);
    r.append(".");
    push_decimal(&mut r, v.release[1] as u128 + 1);
    r.append(".0");
    r
}

/// Get the lower and upper bounds to use for `uv_build`, following what uv's documentation
/// recommends. The lower bound is the installed version of uv (its version string being
/// `raw_version`), if found, stable, and greater than or equal to the first version that made
/// the build backend stable; the upper bound is the next minor version. Otherwise static bounds
/// are used, which is better than no bounds at all.
pub fn get_uv_build(raw_version: Option<&str>) -> (r: String)
    ensures
        r@ == uv_build_requirement(
            match raw_version {
                Some(t) => Some(t@),
                None => None,
            },
        ),
{
    let installed = match raw_version {
        Some(raw) => match parse_version(raw) {
            Some(version) => match parse_version("0.7.19") {
                Some(minimum) => Some(
                    InstalledUvVersion {
                        stable: version.is_stable(),
                        at_least_minimum: !minimum.is_greater_than(&version),
                        release: version.release(),
                        normalized: version.normalized(),
                    },
                ),
                None => None,
            },
            None => None,
        },
        None => None,
    };
    uv_build_bounds(installed)
}

/// The build system of Hatch.
pub open spec fn hatch_build_system() -> BuildSystemView {
    BuildSystemView { requires: seq!["hatchling"@], build_backend: Some("hatchling.build"@) }
}

/// The build system of uv, for the installed uv version `raw_version`.
pub open spec fn uv_build_system(raw_version: Option<Seq<char>>) -> BuildSystemView {
    BuildSystemView {
        requires: seq![uv_build_requirement(raw_version)],
        build_backend: Some("uv_build"@),
    }
}

/// The build backend of Poetry.
pub open spec fn poetry_build_backend() -> Seq<char> {
    "poetry.core.masonry.api"@
}

/// The `[build-system]` section after the migration: `None` (the current one is kept) unless
/// the current build backend is Poetry's and the user did not ask to keep it. Then it is Hatch's
/// when the chosen backend is Hatch, or when no backend object was built and the user asked for
/// Hatch; uv's otherwise.
pub open spec fn migrated_build_system(
    current: Option<BuildSystemView>,
    keep_current_build_backend: bool,
    hatch_chosen: bool,
    raw_version: Option<Seq<char>>,
) -> Option<BuildSystemView> {
    if keep_current_build_backend {
        None
    } else {
        match current {
            Some(b) => match b.build_backend {
                Some(name) => if name == poetry_build_backend() {
                    if hatch_chosen {
                        Some(hatch_build_system())
                    } else {
                        Some(uv_build_system(raw_version))
                    }
                } else {
                    None
                },
                None => None,
            },
            None => None,
        }
    }
}

/// Whether Hatch is the backend a migration uses: the one built, or, when none was built, the
/// one the user asked for.
pub open spec fn hatch_chosen<U, H>(
    new_build_system: Option<BuildBackendObject<U, H>>,
    build_backend: Option<BuildBackend>,
) -> bool {
    match new_build_system {
        Some(BuildBackendObject::Hatch(_)) => true,
        Some(BuildBackendObject::Uv(_)) => false,
        None => build_backend == Some(BuildBackend::Hatch),
    }
}

fn string_vec_of(s: &str) -> (r: Vec<String>)
    ensures
        r.deep_view() == seq![s@],
{
    let mut r: Vec<String> = Vec::new();
    r.push(String::from_str(s));
    assert(r.deep_view() =~= seq![s@]);
    r
}

/// The `[build-system]` section to write after the migration, if it changes. `uv_version` is
/// the version string that the installed uv reports, if any.
pub fn get_new_build_system<U, H>(
    current_build_system: Option<BuildSystem>,
    keep_current_build_backend: bool,
    new_build_system: Option<&BuildBackendObject<U, H>>,
    build_backend: Option<BuildBackend>,
    uv_version: Option<&str>,
) -> (r: Option<BuildSystem>)
    ensures
        build_system_view(r) == migrated_build_system(
            build_system_view(current_build_system),
            keep_current_build_backend,
            hatch_chosen(clone_of(new_build_system), build_backend),
            match uv_version {
                Some(t) => Some(t@),
                None => None,
            },
        ),
{
    if keep_current_build_backend {
        return None;
    }
    let current = match current_build_system {
        Some(c) => c,
        None => {
            return None;
        },
    };
    let name = match current.build_backend {
        Some(name) => name,
        None => {
            return None;
        },
    };
    if !str_eq(name.as_str(), "poetry.core.masonry.api") {
        return None;
    }
    let hatch = match new_build_system {
        Some(BuildBackendObject::Hatch(_)) => true,
        Some(BuildBackendObject::Uv(_)) => false,
        None => build_backend == Some(BuildBackend::Hatch),
    };
    if hatch {
        Some(
            BuildSystem {
                requires: string_vec_of("hatchling"),
                build_backend: Some(String::from_str("hatchling.build")),
            },
        )
    } else {
        let requirement = get_uv_build(uv_version);
        let ghost text = requirement@;
        let mut uv_requirements: Vec<String> = Vec::new();
        uv_requirements.push(requirement);
        assert(uv_requirements.deep_view() =~= seq![text]);
        Some(
            BuildSystem {
                requires: uv_requirements,
                build_backend: Some(String::from_str("uv_build")),
            },
        )
    }
}

/// An unrecoverable error with the message `message`.
pub open spec fn unrecoverable(message: Seq<char>) -> MigrationErrorView {
    MigrationErrorView { error: message, recoverable: false }
}

/// The errors that a build backend builder reported, as unrecoverable errors.
pub open spec fn builder_errors(messages: Seq<Seq<char>>) -> Seq<MigrationErrorView> {
    messages.map_values(|m: Seq<char>| unrecoverable(m))
}

/// The warning given when the build backend falls back from uv to Hatch.
pub open spec fn hatch_fallback_notice() -> Seq<char> {
    "Migrating build backend to Hatch, as package distribution is too complex to be expressed with uv."@
}

/// The error given when neither uv nor Hatch could express the package distribution.
pub open spec fn no_uv_nor_hatch_message() -> Seq<char> {
    "Package distribution could not be migrated to uv nor Hatch build backend due to the issues above. Consider keeping the current build backend with \""@
        + bold_text("--keep-current-build-backend"@) + "\"."@
}

/// The error given when uv, asked for by the user, could not express the package distribution.
pub open spec fn no_uv_message() -> Seq<char> {
    "Package distribution could not be migrated to uv build backend due to the issues above. Consider using Hatch build backend with \""@
        + bold_text("--build-backend hatch"@) + "\"."@
}

/// The error given when Hatch, asked for by the user, could not express the package
/// distribution.
pub open spec fn no_hatch_message() -> Seq<char> {
    "Package distribution could not be migrated to Hatch build backend due to the issues above. Consider keeping the current build backend with \""@
        + bold_text("--keep-current-build-backend"@) + "\"."@
}

/// The uv build backend, when there is one.
pub open spec fn as_uv<U, H>(uv: Option<U>) -> Option<BuildBackendObject<U, H>> {
    match uv {
        Some(u) => Some(BuildBackendObject::Uv(u)),
        None => None,
    }
}

/// The Hatch build backend, when there is one.
pub open spec fn as_hatch<U, H>(hatch: Option<H>) -> Option<BuildBackendObject<U, H>> {
    match hatch {
        Some(h) => Some(BuildBackendObject::Hatch(h)),
        None => None,
    }
}

/// The outcome of one builder, failed with `errors`: every error is recorded as
/// unrecoverable; the backend is still used when errors are ignored, and otherwise none is,
/// with the error `message`.
pub open spec fn failed_backend<U, H>(
    backend: Option<BuildBackendObject<U, H>>,
    earlier: Seq<MigrationErrorView>,
    errors: Seq<Seq<char>>,
    ignore_errors: bool,
    message: Seq<char>,
) -> (Option<BuildBackendObject<U, H>>, Seq<MigrationErrorView>) {
    let recorded = earlier + builder_errors(errors);
    if ignore_errors {
        (backend, recorded)
    } else {
        (None, recorded.push(unrecoverable(message)))
    }
}

/// The build backend a migration uses and the errors it records, given what the uv builder
/// (`uv`, with its errors `uv_errors`) and the Hatch builder (`hatch`, `hatch_errors`) produced.
/// With no choice from the user, uv is used unless it reported errors; then Hatch is, with a
/// warning. A chosen backend is used when it reported no error.
pub open spec fn chosen_build_backend<U, H>(
    keep_current_build_backend: bool,
    build_backend: Option<BuildBackend>,
    ignore_errors: bool,
    uv: Option<U>,
    uv_errors: Seq<Seq<char>>,
    hatch: Option<H>,
    hatch_errors: Seq<Seq<char>>,
) -> (Option<BuildBackendObject<U, H>>, Seq<MigrationErrorView>) {
    if keep_current_build_backend {
        (None, Seq::empty())
    } else {
        match build_backend {
            None => if uv_errors.len() == 0 {
                (as_uv(uv), Seq::empty())
            } else {
                let notice = seq![
                    MigrationErrorView { error: hatch_fallback_notice(), recoverable: true },
                ];
                if hatch_errors.len() == 0 {
                    (as_hatch(hatch), notice)
                } else {
                    failed_backend(
                        as_hatch(hatch),
                        notice,
                        hatch_errors,
                        ignore_errors,
                        no_uv_nor_hatch_message(),
                    )
                }
            },
            Some(BuildBackend::Uv) => if uv_errors.len() == 0 {
                (as_uv(uv), Seq::empty())
            } else {
                failed_backend(
                    as_uv(uv),
                    Seq::empty(),
                    uv_errors,
                    ignore_errors,
                    no_uv_message(),
                )
            },
            Some(BuildBackend::Hatch) => if hatch_errors.len() == 0 {
                (as_hatch(hatch), Seq::empty())
            } else {
                failed_backend(
                    as_hatch(hatch),
                    Seq::empty(),
                    hatch_errors,
                    ignore_errors,
                    no_hatch_message(),
                )
            },
        }
    }
}

/// The result of a build backend builder: the backend configuration it built, if any, and the
/// problems it found.
pub struct BackendAttempt<T> {
    pub backend: Option<T>,
    pub errors: Vec<String>,
}

fn record_builder_errors(recorded: &mut Vec<MigrationError>, errors: &Vec<String>)
    ensures
        crate::errors::errors_view(final(recorded)@) == crate::errors::errors_view(old(recorded)@)
            + builder_errors(errors.deep_view()),
{
    let ghost start = crate::errors::errors_view(recorded@);
    let ghost messages = errors.deep_view();
    let mut i: usize = 0;
    assert(builder_errors(messages.take(0)) =~= Seq::<MigrationErrorView>::empty());
    assert(crate::errors::errors_view(recorded@) =~= start + builder_errors(messages.take(0)));
    while i < errors.len()
        invariant
            messages == errors.deep_view(),
            i <= errors.len(),
            crate::errors::errors_view(recorded@) == start + builder_errors(messages.take(i as int)),
        decreases errors.len() - i,
    {
        let ghost before = crate::errors::errors_view(recorded@);
        recorded.push(MigrationError { error: errors[i].clone(), recoverable: false });
        assert(crate::errors::errors_view(recorded@) =~= before.push(unrecoverable(messages[i as int])));
        assert(builder_errors(messages.take(i + 1)) =~= builder_errors(messages.take(i as int)).push(
            unrecoverable(messages[i as int]),
        ));
        i = i + 1;
    }
    assert(messages.take(errors.len() as int) =~= messages);
}

fn hint_message(prefix: &str, option: &str) -> (r: String)
    ensures
        r@ == prefix@ + bold_text(option@) + "\"."@,
{
    let mut m = String::from_str(prefix);
    let styled = bold(option);
    m.append(styled.as_str());
    m.append("\".");
    m
}

/// Get the build backend the project is migrated to, from what the uv and Hatch builders made of
/// the project's package distribution, and the errors the choice records. With no backend set by
/// the user, uv is chosen unless its builder reported problems, in which case Hatch is.
pub fn get_build_backend<U, H>(
    converter_options: &ConverterOptions,
    uv: BackendAttempt<U>,
    hatch: BackendAttempt<H>,
) -> (r: (Option<BuildBackendObject<U, H>>, Vec<MigrationError>))
    ensures
        ({
            let expected = chosen_build_backend(
                converter_options.keep_current_build_backend,
                converter_options.build_backend,
                converter_options.ignore_errors,
                uv.backend,
                uv.errors.deep_view(),
                hatch.backend,
                hatch.errors.deep_view(),
            );
            r.0 == expected.0 && crate::errors::errors_view(r.1@) == expected.1
        }),
{
    let mut recorded: Vec<MigrationError> = Vec::new();
    assert(crate::errors::errors_view(recorded@) =~= Seq::<MigrationErrorView>::empty());
    if converter_options.keep_current_build_backend {
        return (None, recorded);
    }
    match converter_options.build_backend {
        None => {
            if uv.errors.len() == 0 {
                let backend = match uv.backend {
                    Some(u) => Some(BuildBackendObject::Uv(u)),
                    None => None,
                };
                return (backend, recorded);
            }
            recorded.push(
                MigrationError {
                    error: String::from_str(
                        "Migrating build backend to Hatch, as package distribution is too complex to be expressed with uv.",
                    ),
                    recoverable: true,
                },
            );
            assert(crate::errors::errors_view(recorded@) =~= seq![
                MigrationErrorView { error: hatch_fallback_notice(), recoverable: true },
            ]);
            let backend = match hatch.backend {
                Some(h) => Some(BuildBackendObject::Hatch(h)),
                None => None,
            };
            if hatch.errors.len() == 0 {
                return (backend, recorded);
            }
            record_builder_errors(&mut recorded, &hatch.errors);
            if converter_options.ignore_errors {
                (backend, recorded)
            } else {
                let message = hint_message(
                    "Package distribution could not be migrated to uv nor Hatch build backend due to the issues above. Consider keeping the current build backend with \"",
                    "--keep-current-build-backend",
                );
                let ghost before = crate::errors::errors_view(recorded@);
                recorded.push(MigrationError { error: message, recoverable: false });
                assert(crate::errors::errors_view(recorded@) =~= before.push(
                    unrecoverable(no_uv_nor_hatch_message()),
                ));
                (None, recorded)
            }
        },
        Some(BuildBackend::Uv) => {
            let backend = match uv.backend {
                Some(u) => Some(BuildBackendObject::Uv(u)),
                None => None,
            };
            if uv.errors.len() == 0 {
                return (backend, recorded);
            }
            record_builder_errors(&mut recorded, &uv.errors);
            assert(crate::errors::errors_view(recorded@) =~= Seq::<MigrationErrorView>::empty()
                + builder_errors(uv.errors.deep_view()));
            if converter_options.ignore_errors {
                (backend, recorded)
            } else {
                let message = hint_message(
                    "Package distribution could not be migrated to uv build backend due to the issues above. Consider using Hatch build backend with \"",
                    "--build-backend hatch",
                );
                let ghost before = crate::errors::errors_view(recorded@);
                recorded.push(MigrationError { error: message, recoverable: false });
                assert(crate::errors::errors_view(recorded@) =~= before.push(
                    unrecoverable(no_uv_message()),
                ));
                (None, recorded)
            }
        },
        Some(BuildBackend::Hatch) => {
            let backend = match hatch.backend {
                Some(h) => Some(BuildBackendObject::Hatch(h)),
                None => None,
            };
            if hatch.errors.len() == 0 {
                return (backend, recorded);
            }
            record_builder_errors(&mut recorded, &hatch.errors);
            assert(crate::errors::errors_view(recorded@) =~= Seq::<MigrationErrorView>::empty()
                + builder_errors(hatch.errors.deep_view()));
            if converter_options.ignore_errors {
                (backend, recorded)
            } else {
                let message = hint_message(
                    "Package distribution could not be migrated to Hatch build backend due to the issues above. Consider keeping the current build backend with \"",
                    "--keep-current-build-backend",
                );
                let ghost before = crate::errors::errors_view(recorded@);
                recorded.push(MigrationError { error: message, recoverable: false });
                assert(crate::errors::errors_view(recorded@) =~= before.push(
                    unrecoverable(no_hatch_message()),
                ));
                (None, recorded)
            }
        },
    }
}

/// When the build backend a migration needs cannot be built and errors are not ignored, no
/// backend is used and an unrecoverable error is recorded, so the error report stops the
/// migration.
pub proof fn law_unbuildable_backend_stops_migration<U, H>(
    build_backend: Option<BuildBackend>,
    uv: Option<U>,
    uv_errors: Seq<Seq<char>>,
    hatch: Option<H>,
    hatch_errors: Seq<Seq<char>>,
)
    requires
        match build_backend {
            None => uv_errors.len() > 0 && hatch_errors.len() > 0,
            Some(BuildBackend::Uv) => uv_errors.len() > 0,
            Some(BuildBackend::Hatch) => hatch_errors.len() > 0,
        },
    ensures
        ({
            let r = chosen_build_backend(
                false,
                build_backend,
                false,
                uv,
                uv_errors,
                hatch,
                hatch_errors,
            );
            r.0 is None && crate::errors::unrecoverable_messages(r.1).len() > 0
        }),
{
    let r = chosen_build_backend(false, build_backend, false, uv, uv_errors, hatch, hatch_errors);
    let s = r.1;
    assert(s.len() > 0);
    assert(s.drop_last().push(s.last()) =~= s);
    assert(!s.last().recoverable);
}

/// A build backend whose builder reports no problem is used as it was built, and nothing is
/// recorded: with no choice from the user, uv when it can be built, Hatch otherwise.
pub proof fn law_clean_backend_is_used<U, H>(
    build_backend: Option<BuildBackend>,
    ignore_errors: bool,
    uv: Option<U>,
    uv_errors: Seq<Seq<char>>,
    hatch: Option<H>,
    hatch_errors: Seq<Seq<char>>,
)
    ensures
        ({
            let r = chosen_build_backend(
                false,
                build_backend,
                ignore_errors,
                uv,
                uv_errors,
                hatch,
                hatch_errors,
            );
            &&& (build_backend != Some(BuildBackend::Hatch) && uv_errors.len() == 0) ==> r.0
                == as_uv::<U, H>(uv) && r.1.len() == 0
            &&& (build_backend == Some(BuildBackend::Hatch) && hatch_errors.len() == 0) ==> r.0
                == as_hatch::<U, H>(hatch) && r.1.len() == 0
            &&& (build_backend is None && uv_errors.len() > 0 && hatch_errors.len() == 0) ==> r.0
                == as_hatch::<U, H>(hatch) && r.1.len() == 1 && r.1[0].recoverable
        }),
{
}

/// With errors ignored, a build backend the user asked for is used as its builder built it,
/// even when the builder reported problems, and each of those problems is recorded, in order,
/// as an unrecoverable error. With no choice from the user and uv reporting problems, Hatch is
/// used as built, whatever it reported.
pub proof fn law_ignored_errors_keep_the_built_backend<U, H>(
    uv: Option<U>,
    uv_errors: Seq<Seq<char>>,
    hatch: Option<H>,
    hatch_errors: Seq<Seq<char>>,
)
    ensures
        ({
            let r = chosen_build_backend(
                false,
                Some(BuildBackend::Uv),
                true,
                uv,
                uv_errors,
                hatch,
                hatch_errors,
            );
            &&& uv matches Some(u) ==> r.0 == Some(BuildBackendObject::<U, H>::Uv(u))
            &&& uv is None ==> r.0 is None
            &&& r.1.len() == uv_errors.len()
            &&& forall|i: int|
                0 <= i < uv_errors.len() ==> #[trigger] r.1[i] == (MigrationErrorView {
                    error: uv_errors[i],
                    recoverable: false,
                })
        }),
        ({
            let r = chosen_build_backend(
                false,
                Some(BuildBackend::Hatch),
                true,
                uv,
                uv_errors,
                hatch,
                hatch_errors,
            );
            &&& hatch matches Some(h) ==> r.0 == Some(BuildBackendObject::<U, H>::Hatch(h))
            &&& hatch is None ==> r.0 is None
            &&& r.1.len() == hatch_errors.len()
            &&& forall|i: int|
                0 <= i < hatch_errors.len() ==> #[trigger] r.1[i] == (MigrationErrorView {
                    error: hatch_errors[i],
                    recoverable: false,
                })
        }),
        uv_errors.len() > 0 ==> ({
            let r = chosen_build_backend(false, None, true, uv, uv_errors, hatch, hatch_errors);
            &&& hatch matches Some(h) ==> r.0 == Some(BuildBackendObject::<U, H>::Hatch(h))
            &&& hatch is None ==> r.0 is None
            &&& r.1.len() == 1 + hatch_errors.len()
            &&& r.1[0] == (MigrationErrorView {
                error: "Migrating build backend to Hatch, as package distribution is too complex to be expressed with uv."@,
                recoverable: true,
            })
            &&& forall|i: int|
                0 <= i < hatch_errors.len() ==> #[trigger] r.1[i + 1] == (MigrationErrorView {
                    error: hatch_errors[i],
                    recoverable: false,
                })
        }),
{
    let r = chosen_build_backend(false, Some(BuildBackend::Uv), true, uv, uv_errors, hatch, hatch_errors);
    assert(r.1 =~= Seq::<MigrationErrorView>::empty() + builder_errors(uv_errors));
    let r2 = chosen_build_backend(false, Some(BuildBackend::Hatch), true, uv, uv_errors, hatch, hatch_errors);
    assert(r2.1 =~= Seq::<MigrationErrorView>::empty() + builder_errors(hatch_errors));
}

/// The `[build-system]` section of a project built with Poetry: `uv_build`, bounded by the
/// installed uv, unless the Hatch backend was built or, with none built, the user asked for
/// Hatch; then `hatchling`. Hatch's section is written in no other case, and nothing is
/// written when the current backend is kept or is not Poetry's.
pub proof fn law_poetry_build_system_replaced<U, H>(
    current: Option<BuildSystemView>,
    keep_current_build_backend: bool,
    new_build_system: Option<BuildBackendObject<U, H>>,
    build_backend: Option<BuildBackend>,
    raw_version: Option<Seq<char>>,
)
    ensures
        ({
            let r = migrated_build_system(
                current,
                keep_current_build_backend,
                hatch_chosen(new_build_system, build_backend),
                raw_version,
            );
            let from_poetry = current matches Some(c) && c.build_backend == Some(
                "poetry.core.masonry.api"@,
            );
            let uv_system = BuildSystemView {
                requires: seq![uv_build_requirement(raw_version)],
                build_backend: Some("uv_build"@),
            };
            let hatch_system = BuildSystemView {
                requires: seq!["hatchling"@],
                build_backend: Some("hatchling.build"@),
            };
            &&& keep_current_build_backend || !from_poetry ==> r is None
            &&& !keep_current_build_backend && from_poetry && (new_build_system matches Some(
                BuildBackendObject::Uv(_),
            ) || (new_build_system is None && build_backend != Some(BuildBackend::Hatch)))
                ==> r == Some(uv_system)
            &&& !keep_current_build_backend && from_poetry && (new_build_system matches Some(
                BuildBackendObject::Hatch(_),
            ) || (new_build_system is None && build_backend == Some(BuildBackend::Hatch)))
                ==> r == Some(hatch_system)
            &&& r == Some(hatch_system) ==> (new_build_system matches Some(
                BuildBackendObject::Hatch(_),
            ) || (new_build_system is None && build_backend == Some(BuildBackend::Hatch)))
        }),
{
    reveal_strlit("uv_build");
    reveal_strlit("hatchling.build");
    assert("uv_build"@ != "hatchling.build"@) by {
        assert("uv_build"@.len() != "hatchling.build"@.len());
    }
}

} // verus!
