use service_status::list::{StatusItem, StatusList};
use service_status::presentation::{alternate_colors, RowShade};
use service_status::status::{ServiceDetails, Status, StatusRecord};

fn details() -> ServiceDetails {
    ServiceDetails {
        service_name: "sshd.service".to_string(),
        service_display_name: "OpenSSH server".to_string(),
        executable_path: "/usr/sbin/sshd".to_string(),
        description: "OpenBSD Secure Shell server".to_string(),
        service_type: "notify".to_string(),
        service_account: "root".to_string(),
    }
}

#[test]
fn rows_alternate_their_shade() {
    assert_eq!(alternate_colors(0), RowShade::Normal);
    assert_eq!(alternate_colors(1), RowShade::Alternate);
    assert_eq!(alternate_colors(2), RowShade::Normal);
    assert_eq!(alternate_colors(7), RowShade::Alternate);
    assert_eq!(alternate_colors(usize::MAX), RowShade::Alternate);
}

#[test]
fn summary_lists_the_six_fields() {
    assert_eq!(
        details().summary(),
        "Service Name: sshd.service\nService Display Name: OpenSSH server\nService Type: notify\nService Executable Path: /usr/sbin/sshd\nService Description: OpenBSD Secure Shell server\nService Account: root"
    );
}

#[test]
fn summary_of_empty_fields_keeps_the_labels() {
    let empty = ServiceDetails {
        service_name: String::new(),
        service_display_name: String::new(),
        executable_path: String::new(),
        description: String::new(),
        service_type: String::new(),
        service_account: String::new(),
    };
    assert_eq!(
        empty.summary(),
        "Service Name: \nService Display Name: \nService Type: \nService Executable Path: \nService Description: \nService Account: "
    );
}

#[test]
fn row_label_marks_the_status() {
    assert_eq!(StatusItem::new(Status::Active, "sshd", "d").row_label(), " o sshd");
    assert_eq!(StatusItem::new(Status::Inactive, "cron", "d").row_label(), " x cron");
}

#[test]
fn checkbox_label_marks_the_status() {
    assert_eq!(StatusItem::new(Status::Active, "sshd", "d").checkbox_label(), " √ sshd");
    assert_eq!(StatusItem::new(Status::Inactive, "cron", "d").checkbox_label(), " ☐ cron");
}

#[test]
fn info_puts_the_status_above_the_description() {
    assert_eq!(StatusItem::new(Status::Active, "sshd", "line").info(), "o Active\nline");
    assert_eq!(StatusItem::new(Status::Inactive, "cron", "").info(), "x Inactive\n");
}

#[test]
fn selected_info_follows_the_selection() {
    let records = vec![
        StatusRecord { name: "sshd".to_string(), status: Status::Active, detail: details() },
        StatusRecord { name: "cron".to_string(), status: Status::Inactive, detail: details() },
    ];
    let mut list = StatusList::from_iter(records);
    assert_eq!(list.selected_info(), "Nothing selected...");
    list.select_next();
    assert_eq!(list.selected_info(), format!("o Active\n{}", details().summary()));
    list.select_next();
    assert_eq!(list.selected_info(), format!("x Inactive\n{}", details().summary()));
    list.select_none();
    assert_eq!(list.selected_info(), "Nothing selected...");
}
