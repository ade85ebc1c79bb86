//! Classification of running applications by the shape of their identifiers.
//!
//! An identifier without a separator belongs to a read-only instance. One
//! that holds the service-logger marker belongs to a service logger. One
//! that begins with the name of a core application and a version marker
//! belongs to a core application. Any other identifier is left unclassified
//! and appears in no bucket.

use crate::application::{
    ids_of, models, ApplicationDescriptor, ApplicationStatus, DescriptorModel,
};
use crate::text::{chars_of, contains, find, holds_char, matches_at, starts_with, texts};
use vstd::prelude::*;

verus! {

/// The operational category of an application.
#[derive(Clone, Copy, Debug, PartialEq, Eq, Structural)]
pub enum ApplicationCategory {
    ReadOnly,
    ServiceLogger,
    Core,
    Unclassified,
}

/// The character that separates the parts of a composite identifier.
pub const SEPARATOR: char = ':';

/// The text that marks the identifier of a service logger.
pub open spec fn service_logger_marker() -> Seq<char> {
    "servicelogger"@
}

/// The beginnings of the identifiers of core applications: a known name,
/// the separator and the version marker.
pub open spec fn core_prefixes() -> Seq<Seq<char>> {
    seq!["core-app:v"@, "holofuel:v"@]
}

/// The identifier begins as that of a core application does.
pub open spec fn has_core_prefix(id: Seq<char>) -> bool {
    exists|k: int| 0 <= k < core_prefixes().len() && starts_with(id, #[trigger] core_prefixes()[k])
}

/// The category that the text of an identifier gives.
pub open spec fn category_of(id: Seq<char>) -> ApplicationCategory {
    if !id.contains(SEPARATOR) {
        ApplicationCategory::ReadOnly
    } else if contains(id, service_logger_marker()) {
        ApplicationCategory::ServiceLogger
    } else if has_core_prefix(id) {
        ApplicationCategory::Core
    } else {
        ApplicationCategory::Unclassified
    }
}

/// The category of the application with identifier `id`.
pub fn classify(id: &str) -> (category: ApplicationCategory)
    ensures
        category == category_of(id@),
{
    let text = chars_of(id);
    if !holds_char(&text, SEPARATOR) {
        return ApplicationCategory::ReadOnly;
    }
    let marker = chars_of("servicelogger");
    if find(&text, &marker).is_some() {
        return ApplicationCategory::ServiceLogger;
    }
    let core_app = chars_of("core-app:v");
    let holofuel = chars_of("holofuel:v");
    if matches_at(&text, &core_app, 0) {
        assert(core_prefixes()[0] == core_app@);
        return ApplicationCategory::Core;
    }
    if matches_at(&text, &holofuel, 0) {
        assert(core_prefixes()[1] == holofuel@);
        return ApplicationCategory::Core;
    }
    ApplicationCategory::Unclassified
}

/// The category is a function of the identifier's text alone: two
/// identifiers with the same characters have the same category, so to
/// classify an identifier again gives the same answer.
pub proof fn lemma_category_depends_on_text(a: &str, b: &str)
    requires
        a@ == b@,
    ensures
        category_of(a@) == category_of(b@),
{
}

/// The identifiers of the running applications, by category, each bucket in
/// the order in which the applications were reported.
#[derive(Debug, PartialEq, Eq)]
pub struct RunningApps {
    pub read_only: Vec<String>,
    pub service_logger: Vec<String>,
    pub core: Vec<String>,
}

/// The test for membership in the bucket of `category`: the application runs
/// and its identifier has that category.
pub open spec fn in_bucket(category: ApplicationCategory) -> spec_fn(DescriptorModel) -> bool {
    |app: DescriptorModel| app.status is Running && category_of(app.id) == category
}

/// The identifiers in the bucket of `category`: those of the running
/// applications of that category, in the order of `apps`.
pub open spec fn bucket(apps: Seq<DescriptorModel>, category: ApplicationCategory) -> Seq<
    Seq<char>,
> {
    ids_of(apps.filter(in_bucket(category)))
}

/// One more application, at the end, comes last in its bucket and changes no
/// other bucket.
pub proof fn lemma_bucket_push(
    apps: Seq<DescriptorModel>,
    app: DescriptorModel,
    category: ApplicationCategory,
)
    ensures
        bucket(apps.push(app), category) == if in_bucket(category)(app) {
            bucket(apps, category).push(app.id)
        } else {
            bucket(apps, category)
        },
{
    reveal(Seq::filter);
    let more = apps.push(app);
    assert(more.drop_last() =~= apps);
    assert(more.last() == app);
    let kept = apps.filter(in_bucket(category));
    if in_bucket(category)(app) {
        assert(more.filter(in_bucket(category)) == kept.push(app));
        assert(ids_of(kept.push(app)) =~= ids_of(kept).push(app.id));
    } else {
        assert(more.filter(in_bucket(category)) == kept);
    }
}

/// Sorts the running applications of `apps` into the three buckets.
/// Applications that do not run, and running ones whose identifier has no
/// category, appear in none.
pub fn running_apps(apps: &Vec<ApplicationDescriptor>) -> (out: RunningApps)
    ensures
        texts(out.read_only@) == bucket(models(apps@), ApplicationCategory::ReadOnly),
        texts(out.service_logger@) == bucket(models(apps@), ApplicationCategory::ServiceLogger),
        texts(out.core@) == bucket(models(apps@), ApplicationCategory::Core),
{
    let mut read_only: Vec<String> = Vec::new();
    let mut service_logger: Vec<String> = Vec::new();
    let mut core: Vec<String> = Vec::new();
    let mut i: usize = 0;
    proof {
        reveal(Seq::filter);
    }
    assert(models(apps@).take(0) =~= Seq::<DescriptorModel>::empty());
    assert(texts(read_only@) =~= bucket(models(apps@).take(0), ApplicationCategory::ReadOnly));
    assert(texts(service_logger@) =~= bucket(
        models(apps@).take(0),
        ApplicationCategory::ServiceLogger,
    ));
    assert(texts(core@) =~= bucket(models(apps@).take(0), ApplicationCategory::Core));
    while i < apps.len()
        invariant
            i <= apps.len(),
            texts(read_only@) == bucket(models(apps@).take(i as int), ApplicationCategory::ReadOnly),
            texts(service_logger@) == bucket(
                models(apps@).take(i as int),
                ApplicationCategory::ServiceLogger,
            ),
            texts(core@) == bucket(models(apps@).take(i as int), ApplicationCategory::Core),
        decreases apps.len() - i,
    {
        let app = &apps[i];
        let ghost seen = models(apps@).take(i as int);
        proof {
            assert(models(apps@).take(i + 1) =~= seen.push(app@));
            lemma_bucket_push(seen, app@, ApplicationCategory::ReadOnly);
            lemma_bucket_push(seen, app@, ApplicationCategory::ServiceLogger);
            lemma_bucket_push(seen, app@, ApplicationCategory::Core);
        }
        let running = match app.status {
            ApplicationStatus::Running => true,
            _ => false,
        };
        if running {
            match classify(app.id.as_str()) {
                ApplicationCategory::ReadOnly => {
                    let ghost before = read_only@;
                    read_only.push(app.id.clone());
                    assert(texts(read_only@) =~= texts(before).push(app.id@));
                },
                ApplicationCategory::ServiceLogger => {
                    let ghost before = service_logger@;
                    service_logger.push(app.id.clone());
                    assert(texts(service_logger@) =~= texts(before).push(app.id@));
                },
                ApplicationCategory::Core => {
                    let ghost before = core@;
                    core.push(app.id.clone());
                    assert(texts(core@) =~= texts(before).push(app.id@));
                },
                ApplicationCategory::Unclassified => {},
            }
        }
        i += 1;
    }
    assert(models(apps@).take(apps@.len() as int) =~= models(apps@));
    RunningApps { read_only, service_logger, core }
}

} // verus!
