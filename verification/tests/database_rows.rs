//! The row conversions at the store boundary.

use stack_overflow_relay::database::{
    to_new_notifications, to_outgoing, to_registrations, NewNotification,
};
use stack_overflow_relay::domain::{IncomingNotification, OutgoingNotification};
use stack_overflow_relay::pushover::UserKey;
use stack_overflow_relay::stack_overflow::{AccessToken, AccountId};

#[test]
fn registrations_keep_row_order() {
    let rows = vec![(1, String::from("ta")), (2, String::from("tb"))];
    let registrations = to_registrations(rows);
    assert_eq!(
        registrations,
        vec![
            (AccountId(1), AccessToken(String::from("ta"))),
            (AccountId(2), AccessToken(String::from("tb"))),
        ]
    );
}

#[test]
fn no_rows_mean_no_registrations() {
    assert_eq!(to_registrations(Vec::new()), Vec::new());
}

#[test]
fn new_notifications_carry_account_and_text() {
    let incoming = vec![
        IncomingNotification { account_id: AccountId(3), text: String::from("first") },
        IncomingNotification { account_id: AccountId(4), text: String::from("second") },
    ];
    let rows = to_new_notifications(incoming);
    assert_eq!(
        rows,
        vec![
            NewNotification { account_id: 3, text: String::from("first") },
            NewNotification { account_id: 4, text: String::from("second") },
        ]
    );
}

#[test]
fn outgoing_notifications_carry_key_and_text() {
    let rows = vec![
        (String::from("key-a"), String::from("first")),
        (String::from("key-b"), String::from("second")),
    ];
    let outgoing = to_outgoing(rows);
    assert_eq!(
        outgoing,
        vec![
            OutgoingNotification { user: UserKey(String::from("key-a")), text: String::from("first") },
            OutgoingNotification { user: UserKey(String::from("key-b")), text: String::from("second") },
        ]
    );
}
