//! Notifications the engine raises. The engine appends them to a queue with
//! an exact contract; displaying them on a desktop, and opening a clicked
//! action's URL, happens outside the library.

use vstd::prelude::*;

verus! {

/// One notification: a title, an optional body, and clickable actions,
/// each a pair of URL and label.
#[derive(Debug)]
pub struct Notification {
    pub summary: String,
    pub body: Option<String>,
    pub action: Vec<(String, String)>,
}

/// The mathematical content of a notification.
pub struct NotificationV {
    pub summary: Seq<char>,
    pub body: Option<Seq<char>>,
    pub action: Seq<(Seq<char>, Seq<char>)>,
}

impl View for Notification {
    type V = NotificationV;

    open spec fn view(&self) -> NotificationV {
        NotificationV {
            summary: self.summary@,
            body: self.body.deep_view(),
            action: self.action.deep_view(),
        }
    }
}

impl DeepView for Notification {
    type V = NotificationV;

    open spec fn deep_view(&self) -> NotificationV {
        self.view()
    }
}

/// Collects the notifications one reconciliation pass raises, in order.
#[derive(Debug)]
pub struct Notifier {
    pub notifications: Vec<Notification>,
}

impl Notifier {
    /// The notifications raised so far, oldest first.
    pub open spec fn queue(&self) -> Seq<NotificationV> {
        self.notifications.deep_view()
    }

    /// A notifier that has raised nothing yet.
    pub fn new() -> (r: Notifier)
        ensures
            r.queue() == Seq::<NotificationV>::empty(),
    {
        let r = Notifier { notifications: Vec::new() };
        proof {
            assert(r.queue() =~= Seq::<NotificationV>::empty());
        }
        r
    }

    /// Raises one notification: appends it to the queue.
    pub fn notify(
        &mut self,
        summary: String,
        body: Option<String>,
        action: Vec<(String, String)>,
    )
        ensures
            final(self).queue() == old(self).queue().push(
                NotificationV {
                    summary: summary@,
                    body: body.deep_view(),
                    action: action.deep_view(),
                },
            ),
    {
        let ghost expected = NotificationV {
            summary: summary@,
            body: body.deep_view(),
            action: action.deep_view(),
        };
        self.notifications.push(Notification { summary, body, action });
        proof {
            assert(self.queue() =~= old(self).queue().push(expected));
        }
    }
}

} // verus!
