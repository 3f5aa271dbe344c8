use vstd::prelude::*;
use crate::config::APP_NAME;

verus! {

/// Script run in the page before any of its own: it replaces the page's
/// `Notification` with one whose permission is always granted and whose
/// constructor posts the message body, as it is, to the host over `window.ipc`.
pub const NOTIFICATIONS_IPC: &'static str = r#"
/**
 * Partial Notification API override that hands notifications to the host.
 */
class NotificationOverride {
  // Permission is granted by running the shell at all.
  // A static getter, since older WebKit lacks class fields.
  static get permission() {
      return "granted";
  }

  // Older WebKit still uses callbacks instead of promises.
  static requestPermission (callback) {
      callback("granted");
  }

  // Forward the notification text to the host through the message handler.
  constructor (messageText) {
    window.ipc.postMessage(messageText);
  }
}

// Override the global browser notification object.
window.Notification = NotificationOverride;
"#;

/// A notification for the operating system's notification service.
#[derive(Debug)]
pub struct NotificationRequest {
    pub summary: String,
    pub body: String,
    pub appname: String,
    pub icon: String,
}

/// The notification shown for a message that the page posted: the message is
/// the body, unchanged, and the application name is summary, application and
/// icon.
pub fn notification_for(message: &str) -> (r: NotificationRequest)
    ensures
        r.body@ == message@,
        r.summary@ == APP_NAME@,
        r.appname@ == APP_NAME@,
        r.icon@ == APP_NAME@,
{
    NotificationRequest {
        summary: APP_NAME.to_owned(),
        body: message.to_owned(),
        appname: APP_NAME.to_owned(),
        icon: APP_NAME.to_owned(),
    }
}

} // verus!
