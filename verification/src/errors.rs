//! Errors collected during a migration, and what is reported of them.
use vstd::prelude::*;
use vstd::string::*;

verus! {

/// An error met during a migration. A recoverable one is reported as a warning; an
/// unrecoverable one stops the migration unless the user chose to ignore errors.
#[derive(Debug, Clone)]
pub struct MigrationError {
    pub error: String,
    pub recoverable: bool,
}

/// The mathematical content of a [`MigrationError`].
pub struct MigrationErrorView {
    pub error: Seq<char>,
    pub recoverable: bool,
}

impl View for MigrationError {
    type V = MigrationErrorView;

    open spec fn view(&self) -> MigrationErrorView {
        MigrationErrorView { error: self.error@, recoverable: self.recoverable }
    }
}

/// The views of a sequence of errors.
pub open spec fn errors_view(errors: Seq<MigrationError>) -> Seq<MigrationErrorView> {
    errors.map_values(|e: MigrationError| e@)
}

/// The messages of the unrecoverable errors, in order.
pub open spec fn unrecoverable_messages(errors: Seq<MigrationErrorView>) -> Seq<Seq<char>>
    decreases errors.len(),
{
    if errors.len() == 0 {
        Seq::empty()
    } else {
        let rest = unrecoverable_messages(errors.drop_last());
        if errors.last().recoverable {
            rest
        } else {
            rest.push(errors.last().error)
        }
    }
}

/// The messages of the recoverable errors (the warnings), in order.
pub open spec fn recoverable_messages(errors: Seq<MigrationErrorView>) -> Seq<Seq<char>>
    decreases errors.len(),
{
    if errors.len() == 0 {
        Seq::empty()
    } else {
        let rest = recoverable_messages(errors.drop_last());
        if errors.last().recoverable {
            rest.push(errors.last().error)
        } else {
            rest
        }
    }
}

/// The line that introduces the list of unrecoverable errors.
pub open spec fn errors_heading(ignore_errors: bool) -> Seq<char> {
    if ignore_errors {
        "The following errors occurred during the migration:"@
    } else {
        "Could not automatically migrate the project to uv because of the following errors:"@
    }
}

/// One listed error.
pub open spec fn error_line(message: Seq<char>) -> Seq<char> {
    "- "@ + message
}

/// What is reported of the errors of a migration.
pub struct ErrorReport {
    /// Whether some error was unrecoverable.
    pub had_errors: bool,
    /// Whether the migration stops.
    pub abort: bool,
    /// The lines to log as errors.
    pub lines: Vec<String>,
}

impl MigrationError {
    pub fn new(error: String, recoverable: bool) -> (r: MigrationError)
        ensures
            r.error == error,
            r.recoverable == recoverable,
    {
        MigrationError { error, recoverable }
    }
}

/// Every error is either reported as unrecoverable or as a warning, and never as both.
pub proof fn law_errors_partition(errors: Seq<MigrationErrorView>)
    ensures
        unrecoverable_messages(errors).len() + recoverable_messages(errors).len() == errors.len(),
    decreases errors.len(),
{
    if errors.len() > 0 {
        law_errors_partition(errors.drop_last());
    }
}

/// The messages of the unrecoverable errors, in order.
pub fn unrecoverable_errors(errors: &Vec<MigrationError>) -> (r: Vec<String>)
    ensures
        r.deep_view() == unrecoverable_messages(errors_view(errors@)),
{
    let ghost all = errors_view(errors@);
    let mut r: Vec<String> = Vec::new();
    let mut i: usize = 0;
    assert(all.take(0) =~= Seq::<MigrationErrorView>::empty());
    assert(r.deep_view() =~= unrecoverable_messages(all.take(0)));
    while i < errors.len()
        invariant
            all == errors_view(errors@),
            i <= errors.len(),
            r.deep_view() == unrecoverable_messages(all.take(i as int)),
        decreases errors.len() - i,
    {
        assert(all.take(i + 1).drop_last() =~= all.take(i as int));
        assert(all.take(i + 1).last() == errors@[i as int]@);
        if !errors[i].recoverable {
            let ghost before = r.deep_view();
            r.push(errors[i].error.clone());
            assert(r.deep_view() =~= before.push(errors@[i as int].error@));
        }
        i = i + 1;
    }
    assert(all.take(errors.len() as int) =~= all);
    r
}

/// The messages of the recoverable errors, which are logged as warnings.
pub fn manage_migration_warnings(errors: &Vec<MigrationError>) -> (r: Vec<String>)
    ensures
        r.deep_view() == recoverable_messages(errors_view(errors@)),
{
    let ghost all = errors_view(errors@);
    let mut r: Vec<String> = Vec::new();
    let mut i: usize = 0;
    assert(all.take(0) =~= Seq::<MigrationErrorView>::empty());
    assert(r.deep_view() =~= recoverable_messages(all.take(0)));
    while i < errors.len()
        invariant
            all == errors_view(errors@),
            i <= errors.len(),
            r.deep_view() == recoverable_messages(all.take(i as int)),
        decreases errors.len() - i,
    {
        assert(all.take(i + 1).drop_last() =~= all.take(i as int));
        assert(all.take(i + 1).last() == errors@[i as int]@);
        if errors[i].recoverable {
            let ghost before = r.deep_view();
            r.push(errors[i].error.clone());
            assert(r.deep_view() =~= before.push(errors@[i as int].error@));
        }
        i = i + 1;
    }
    assert(all.take(errors.len() as int) =~= all);
    r
}

/// Decides what is reported of the errors of a migration: nothing when no error is
/// unrecoverable; otherwise a heading and one line per unrecoverable error, and the migration
/// stops unless errors are ignored.
pub fn manage_migration_errors(errors: &Vec<MigrationError>, ignore_errors: bool) -> (r:
    ErrorReport)
    ensures
        ({
            let messages = unrecoverable_messages(errors_view(errors@));
            &&& r.had_errors == (messages.len() > 0)
            &&& r.abort == (messages.len() > 0 && !ignore_errors)
            &&& messages.len() == 0 ==> r.lines@.len() == 0
            &&& messages.len() > 0 ==> r.lines.deep_view() == seq![errors_heading(ignore_errors)]
                + messages.map_values(|m: Seq<char>| error_line(m))
        }),
{
    let messages = unrecoverable_errors(errors);
    let ghost ms = messages.deep_view();
    let mut lines: Vec<String> = Vec::new();
    if messages.len() == 0 {
        return ErrorReport { had_errors: false, abort: false, lines };
    }
    let heading = if ignore_errors {
        String::from_str("The following errors occurred during the migration:")
    } else {
        String::from_str(
            "Could not automatically migrate the project to uv because of the following errors:",
        )
    };
    lines.push(heading);
    let mut i: usize = 0;
    assert(lines.deep_view() =~= seq![errors_heading(ignore_errors)] + ms.take(0).map_values(
        |m: Seq<char>| error_line(m),
    ));
    while i < messages.len()
        invariant
            ms == messages.deep_view(),
            i <= messages.len(),
            lines.deep_view() == seq![errors_heading(ignore_errors)] + ms.take(i as int).map_values(
                |m: Seq<char>| error_line(m),
            ),
        decreases messages.len() - i,
    {
        let mut line = String::from_str("- ");
        line.append(messages[i].as_str());
        let ghost before = lines.deep_view();
        lines.push(line);
        assert(lines.deep_view() =~= before.push(error_line(ms[i as int])));
        assert(ms.take(i + 1).map_values(|m: Seq<char>| error_line(m)) =~= ms.take(
            i as int,
        ).map_values(|m: Seq<char>| error_line(m)).push(error_line(ms[i as int])));
        i = i + 1;
    }
    assert(ms.take(messages.len() as int) =~= ms);
    ErrorReport { had_errors: true, abort: !ignore_errors, lines }
}

} // verus!
