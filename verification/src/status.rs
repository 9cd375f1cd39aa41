use vstd::prelude::*;
use vstd::string::StringExecFns;

verus! {

/// Whether a service was found running when it was last queried.
#[derive(Debug, Clone, Copy, PartialEq, Eq, Structural, PartialOrd, Ord, Hash)]
pub enum Status {
    Active,
    Inactive,
}

impl Status {
    /// The status that an answer to the running-state check stands for.
    pub fn from_running(running: bool) -> (status: Status)
        ensures
            status == Status::of_running(running),
    {
        if running {
            Status::Active
        } else {
            Status::Inactive
        }
    }

    pub open spec fn of_running(running: bool) -> Status {
        if running {
            Status::Active
        } else {
            Status::Inactive
        }
    }
}

/// The text fields that the inspector reports about one service.
#[derive(Debug, PartialEq, Eq)]
pub struct ServiceDetails {
    pub service_name: String,
    pub service_display_name: String,
    pub executable_path: String,
    pub description: String,
    pub service_type: String,
    pub service_account: String,
}

/// The mathematical content of a [`ServiceDetails`].
pub ghost struct ServiceDetailsView {
    pub service_name: Seq<char>,
    pub service_display_name: Seq<char>,
    pub executable_path: Seq<char>,
    pub description: Seq<char>,
    pub service_type: Seq<char>,
    pub service_account: Seq<char>,
}

impl View for ServiceDetails {
    type V = ServiceDetailsView;

    open spec fn view(&self) -> ServiceDetailsView {
        ServiceDetailsView {
            service_name: self.service_name@,
            service_display_name: self.service_display_name@,
            executable_path: self.executable_path@,
            description: self.description@,
            service_type: self.service_type@,
            service_account: self.service_account@,
        }
    }
}

impl DeepView for ServiceDetails {
    type V = ServiceDetailsView;

    open spec fn deep_view(&self) -> ServiceDetailsView {
        self@
    }
}

impl Clone for ServiceDetails {
    fn clone(&self) -> (copy: Self)
        ensures
            copy@ == self@,
    {
        ServiceDetails {
            service_name: self.service_name.clone(),
            service_display_name: self.service_display_name.clone(),
            executable_path: self.executable_path.clone(),
            description: self.description.clone(),
            service_type: self.service_type.clone(),
            service_account: self.service_account.clone(),
        }
    }
}

/// One existing service as the aggregator reports it: the name it was
/// queried under, whether it was running, and what the inspector told of it.
#[derive(Debug, PartialEq, Eq)]
pub struct StatusRecord {
    pub name: String,
    pub status: Status,
    pub detail: ServiceDetails,
}

/// The mathematical content of a [`StatusRecord`].
pub ghost struct StatusRecordView {
    pub name: Seq<char>,
    pub status: Status,
    pub detail: ServiceDetailsView,
}

impl View for StatusRecord {
    type V = StatusRecordView;

    open spec fn view(&self) -> StatusRecordView {
        StatusRecordView { name: self.name@, status: self.status, detail: self.detail@ }
    }
}

impl DeepView for StatusRecord {
    type V = StatusRecordView;

    open spec fn deep_view(&self) -> StatusRecordView {
        self@
    }
}

impl Clone for StatusRecord {
    fn clone(&self) -> (copy: Self)
        ensures
            copy@ == self@,
    {
        StatusRecord {
            name: self.name.clone(),
            status: self.status,
            detail: self.detail.clone(),
        }
    }
}

impl ServiceDetailsView {
    /// The six fields as the detail pane shows them: one labelled line each,
    /// in a fixed order, with no line break after the last.
    pub open spec fn summary(self) -> Seq<char> {
        "Service Name: "@ + self.service_name
            + "\nService Display Name: "@ + self.service_display_name
            + "\nService Type: "@ + self.service_type
            + "\nService Executable Path: "@ + self.executable_path
            + "\nService Description: "@ + self.description
            + "\nService Account: "@ + self.service_account
    }
}

impl ServiceDetails {
    /// Renders the fields as the text of the detail pane.
    pub fn summary(&self) -> (text: String)
        ensures
            text@ == self@.summary(),
    {
        let mut text = String::from_str("Service Name: ");
        text.append(self.service_name.as_str());
        text.append("\nService Display Name: ");
        text.append(self.service_display_name.as_str());
        text.append("\nService Type: ");
        text.append(self.service_type.as_str());
        text.append("\nService Executable Path: ");
        text.append(self.executable_path.as_str());
        text.append("\nService Description: ");
        text.append(self.description.as_str());
        text.append("\nService Account: ");
        text.append(self.service_account.as_str());
        text
    }
}

} // verus!
