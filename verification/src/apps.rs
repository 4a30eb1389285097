//! The list of running applications that is shown to the user: which of the
//! applications that the host reports are listed, and under which identifier.

use crate::text::{push_signed_decimal, signed_decimal};
use vstd::prelude::*;
use vstd::string::*;

verus! {

/// The activation policy of an ordinary application with a user interface.
pub const REGULAR_ACTIVATION_POLICY: i64 = 0;

/// What the host reports of one running application.
#[derive(Debug, PartialEq, Eq)]
pub struct RunningApp {
    pub hidden: bool,
    pub activation_policy: i64,
    /// The localized name, if the application has one.
    pub name: Option<String>,
    /// The bundle identifier, if the application has one.
    pub bundle_id: Option<String>,
    pub pid: i32,
    /// The path of the bundle, if the application has one.
    pub path: Option<String>,
}

/// A `RunningApp` as mathematical values.
pub struct RunningAppView {
    pub hidden: bool,
    pub activation_policy: i64,
    pub name: Option<Seq<char>>,
    pub bundle_id: Option<Seq<char>>,
    pub pid: i32,
    pub path: Option<Seq<char>>,
}

impl View for RunningApp {
    type V = RunningAppView;

    open spec fn view(&self) -> RunningAppView {
        RunningAppView {
            hidden: self.hidden,
            activation_policy: self.activation_policy,
            name: self.name.deep_view(),
            bundle_id: self.bundle_id.deep_view(),
            pid: self.pid,
            path: self.path.deep_view(),
        }
    }
}

/// One entry of the list of applications.
#[derive(Debug, PartialEq, Eq)]
pub struct AppMetadata {
    pub name: String,
    pub bundle_id: String,
    pub path: String,
}

/// An `AppMetadata` as mathematical values.
pub struct AppMetadataView {
    pub name: Seq<char>,
    pub bundle_id: Seq<char>,
    pub path: Seq<char>,
}

impl View for AppMetadata {
    type V = AppMetadataView;

    open spec fn view(&self) -> AppMetadataView {
        AppMetadataView { name: self.name@, bundle_id: self.bundle_id@, path: self.path@ }
    }
}

/// The identifier of an application: its bundle identifier, or, where it has
/// none, `pid_` and the number of its process.
pub open spec fn app_identifier(bundle_id: Option<Seq<char>>, pid: i32) -> Seq<char> {
    match bundle_id {
        Some(id) => id,
        None => "pid_"@ + signed_decimal(pid as int),
    }
}

impl RunningAppView {
    /// The application is listed: it is not hidden, it is an ordinary
    /// application with a user interface, and it has a name that is not
    /// empty.
    pub open spec fn is_listed(self) -> bool {
        &&& !self.hidden
        &&& self.activation_policy == REGULAR_ACTIVATION_POLICY
        &&& self.name matches Some(name)
        &&& name.len() > 0
    }

    /// The entry under which the application is listed.
    pub open spec fn entry(self) -> AppMetadataView {
        AppMetadataView {
            name: match self.name {
                Some(name) => name,
                None => Seq::empty(),
            },
            bundle_id: app_identifier(self.bundle_id, self.pid),
            path: match self.path {
                Some(path) => path,
                None => Seq::empty(),
            },
        }
    }
}

/// The list for the applications `apps`: the entries of those that are
/// listed, in the order in which they were reported.
pub open spec fn listing(apps: Seq<RunningAppView>) -> Seq<AppMetadataView>
    decreases apps.len(),
{
    if apps.len() == 0 {
        Seq::empty()
    } else if apps.last().is_listed() {
        listing(apps.drop_last()).push(apps.last().entry())
    } else {
        listing(apps.drop_last())
    }
}

/// The views of a vector of reported applications.
pub open spec fn reported(apps: Seq<RunningApp>) -> Seq<RunningAppView> {
    Seq::new(apps.len(), |i: int| apps[i]@)
}

/// The views of a vector of entries.
pub open spec fn entries(list: Seq<AppMetadata>) -> Seq<AppMetadataView> {
    Seq::new(list.len(), |i: int| list[i]@)
}

/// The identifier of an application: its bundle identifier, or, where it has
/// none, `pid_` and the number of its process.
pub fn identifier(bundle_id: &Option<String>, pid: i32) -> (id: String)
    ensures
        id@ == app_identifier(bundle_id.deep_view(), pid),
{
    match bundle_id {
        Some(id) => id.clone(),
        None => {
            let mut id = String::from_str("pid_");
            push_signed_decimal(&mut id, pid);
            id
        },
    }
}

/// The entry of one reported application, if it is listed.
pub fn list_entry(app: &RunningApp) -> (entry: Option<AppMetadata>)
    ensures
        entry is Some <==> app@.is_listed(),
        entry matches Some(e) ==> e@ == app@.entry(),
{
    if app.hidden || app.activation_policy != REGULAR_ACTIVATION_POLICY {
        return None;
    }
    let name = match &app.name {
        Some(name) => name.clone(),
        None => {
            return None;
        },
    };
    if name.as_str().is_empty() {
        return None;
    }
    let bundle_id = identifier(&app.bundle_id, app.pid);
    let path = match &app.path {
        Some(path) => path.clone(),
        None => String::new(),
    };
    Some(AppMetadata { name, bundle_id, path })
}

/// The list of applications for what the host reports: the entries of the
/// applications that are listed, in the order in which they were reported.
pub fn get_app_list(apps: &Vec<RunningApp>) -> (list: Vec<AppMetadata>)
    ensures
        entries(list@) == listing(reported(apps@)),
{
    let ghost all = reported(apps@);
    let mut list: Vec<AppMetadata> = Vec::new();
    let mut i: usize = 0;
    proof {
        assert(all.take(0) =~= Seq::<RunningAppView>::empty());
    }
    while i < apps.len()
        invariant
            i <= apps.len(),
            all == reported(apps@),
            entries(list@) == listing(all.take(i as int)),
        decreases apps.len() - i,
    {
        proof {
            let next = all.take(i as int + 1);
            assert(next.drop_last() =~= all.take(i as int));
            assert(next.last() == apps[i as int]@);
        }
        let ghost before = entries(list@);
        match list_entry(&apps[i]) {
            Some(entry) => {
                list.push(entry);
                assert(entries(list@) =~= before.push(entry@));
            },
            None => {},
        }
        i = i + 1;
    }
    proof {
        assert(all.take(i as int) =~= all);
    }
    list
}

/// Whether the reported application goes by the identifier `wanted`.
pub fn has_identifier(app: &RunningApp, wanted: &str) -> (same: bool)
    ensures
        same == (app_identifier(app@.bundle_id, app@.pid) == wanted@),
{
    let id = identifier(&app.bundle_id, app.pid);
    id == String::from_str(wanted)
}

/// The place of the first reported application that goes by the identifier
/// `wanted`, hidden or not, if there is one.
pub fn find_app(apps: &Vec<RunningApp>, wanted: &str) -> (found: Option<usize>)
    ensures
        match found {
            Some(at) => {
                &&& at < apps.len()
                &&& app_identifier(apps[at as int]@.bundle_id, apps[at as int]@.pid) == wanted@
                &&& forall|j: int|
                    0 <= j < at ==> app_identifier(
                        (#[trigger] apps[j])@.bundle_id,
                        apps[j]@.pid,
                    ) != wanted@
            },
            None => forall|j: int|
                0 <= j < apps.len() ==> app_identifier(
                    (#[trigger] apps[j])@.bundle_id,
                    apps[j]@.pid,
                ) != wanted@,
        },
{
    let mut i: usize = 0;
    while i < apps.len()
        invariant
            i <= apps.len(),
            forall|j: int|
                0 <= j < i ==> app_identifier((#[trigger] apps[j])@.bundle_id, apps[j]@.pid)
                    != wanted@,
        decreases apps.len() - i,
    {
        if has_identifier(&apps[i], wanted) {
            return Some(i);
        }
        i = i + 1;
    }
    None
}

} // verus!
