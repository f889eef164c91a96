use mediator::deliver;
use mediator::notify;
use mediator::ErasedHandler;
use mediator::Mediator;
use mediator::Notification;
use mediator::NotificationHandler;
use std::any::TypeId;
use std::sync::Arc;
use std::sync::Mutex;

/// A notification without content.
#[derive(Clone)]
struct Ping;

impl Notification for Ping {}

/// Records whether it has been called.
struct PingHandler {
    was_called: Arc<Mutex<bool>>,
}

impl NotificationHandler<Ping> for PingHandler {
    fn handle(&self, _notification: Ping) {
        let mut flag = self.was_called.lock().unwrap();
        *flag = true;
    }
}

/// A notification that carries a text and counts how often it is duplicated.
struct Note {
    text: String,
    copies: Arc<Mutex<u32>>,
}

impl Clone for Note {
    fn clone(&self) -> Self {
        *self.copies.lock().unwrap() += 1;
        Note {
            text: self.text.clone(),
            copies: Arc::clone(&self.copies),
        }
    }
}

impl Notification for Note {}

/// Writes its own label and the text it received into a shared journal.
struct Scribe {
    label: u32,
    journal: Arc<Mutex<Vec<(u32, String)>>>,
}

impl NotificationHandler<Note> for Scribe {
    fn handle(&self, mut notification: Note) {
        self.journal
            .lock()
            .unwrap()
            .push((self.label, notification.text.clone()));
        notification.text.push_str(" (seen)");
    }
}

#[test]
fn mediator_invokes_registered_notification() {
    let was_called = Arc::new(Mutex::new(false));

    let handler = PingHandler {
        was_called: Arc::clone(&was_called),
    };

    let mut mediator = Mediator::new();
    mediator.register_notification(handler);

    mediator.send_notification(Ping);

    assert_eq!(*was_called.lock().unwrap(), true);
}

#[test]
fn mediator_ignores_unhandled_notification() {
    let mediator = Mediator::new();

    mediator.send_notification(Ping);
}

#[test]
fn every_handler_is_called_once_in_registration_order() {
    let journal = Arc::new(Mutex::new(Vec::new()));
    let copies = Arc::new(Mutex::new(0));
    let mut mediator = Mediator::new();
    for label in [3, 1, 2] {
        mediator.register_notification(Scribe {
            label,
            journal: Arc::clone(&journal),
        });
    }

    mediator.send_notification(Note {
        text: "news".to_string(),
        copies: Arc::clone(&copies),
    });

    assert_eq!(
        *journal.lock().unwrap(),
        vec![
            (3, "news".to_string()),
            (1, "news".to_string()),
            (2, "news".to_string())
        ]
    );
    assert_eq!(*copies.lock().unwrap(), 3);
}

#[test]
fn notification_kinds_do_not_interfere() {
    let was_called = Arc::new(Mutex::new(false));
    let journal = Arc::new(Mutex::new(Vec::new()));
    let copies = Arc::new(Mutex::new(0));
    let mut mediator = Mediator::new();
    mediator.register_notification(PingHandler {
        was_called: Arc::clone(&was_called),
    });
    mediator.register_notification(Scribe {
        label: 7,
        journal: Arc::clone(&journal),
    });

    mediator.send_notification(Note {
        text: "only for scribes".to_string(),
        copies: Arc::clone(&copies),
    });

    assert_eq!(*was_called.lock().unwrap(), false);
    assert_eq!(
        *journal.lock().unwrap(),
        vec![(7, "only for scribes".to_string())]
    );
}

#[test]
fn publish_counts_the_handlers_it_called() {
    let journal = Arc::new(Mutex::new(Vec::new()));
    let copies = Arc::new(Mutex::new(0));
    let mut mediator = Mediator::new();
    let note = Note {
        text: "count".to_string(),
        copies: Arc::clone(&copies),
    };

    assert_eq!(mediator.publish(&TypeId::of::<Note>(), note.clone()), 0);

    mediator.register_notification(Scribe {
        label: 1,
        journal: Arc::clone(&journal),
    });
    mediator.register_notification(Scribe {
        label: 2,
        journal: Arc::clone(&journal),
    });

    assert_eq!(mediator.publish(&TypeId::of::<Note>(), note.clone()), 2);
    assert_eq!(mediator.publish(&TypeId::of::<Ping>(), Ping), 0);
    assert_eq!(journal.lock().unwrap().len(), 2);
}

#[test]
fn publish_skips_handlers_of_another_kind() {
    let was_called = Arc::new(Mutex::new(false));
    let mut mediator = Mediator::new();
    mediator.subscribe(
        TypeId::of::<Note>(),
        ErasedHandler::for_notification::<Ping, _>(PingHandler {
            was_called: Arc::clone(&was_called),
        }),
    );
    let copies = Arc::new(Mutex::new(0));

    let delivered = mediator.publish(
        &TypeId::of::<Note>(),
        Note {
            text: "lost".to_string(),
            copies: Arc::clone(&copies),
        },
    );

    assert_eq!(delivered, 0);
    assert_eq!(*was_called.lock().unwrap(), false);
    assert_eq!(mediator.publish(&TypeId::of::<Note>(), Ping), 1);
    assert_eq!(*was_called.lock().unwrap(), true);
}

#[test]
fn subscribers_grow_by_one_per_registration() {
    let journal = Arc::new(Mutex::new(Vec::new()));
    let mut mediator = Mediator::new();
    assert!(mediator.subscribers(&TypeId::of::<Note>()).is_none());

    mediator.register_notification(Scribe {
        label: 1,
        journal: Arc::clone(&journal),
    });
    assert_eq!(mediator.subscribers(&TypeId::of::<Note>()).unwrap().len(), 1);

    mediator.register_notification(Scribe {
        label: 2,
        journal: Arc::clone(&journal),
    });
    assert_eq!(mediator.subscribers(&TypeId::of::<Note>()).unwrap().len(), 2);
    assert!(mediator.subscribers(&TypeId::of::<Ping>()).is_none());
}

#[test]
fn stored_notification_handler_is_recovered_only_under_its_own_kind() {
    let journal = Arc::new(Mutex::new(Vec::new()));
    let stored = ErasedHandler::for_notification::<Note, _>(Scribe {
        label: 9,
        journal: Arc::clone(&journal),
    });

    assert!(stored.as_notification_handler::<Note>().is_some());
    assert!(stored.as_notification_handler::<Ping>().is_none());
}

#[test]
fn notify_reaches_the_recipient_it_is_given() {
    let journal = Arc::new(Mutex::new(Vec::new()));
    let copies = Arc::new(Mutex::new(0));
    let note = Note {
        text: "direct".to_string(),
        copies: Arc::clone(&copies),
    };
    let stored = ErasedHandler::for_notification::<Note, _>(Scribe {
        label: 4,
        journal: Arc::clone(&journal),
    });

    assert_eq!(notify(stored.as_notification_handler::<Note>(), &note), true);
    assert_eq!(notify(stored.as_notification_handler::<Ping>(), &Ping), false);
    assert_eq!(notify::<Note>(None, &note), false);

    assert_eq!(*journal.lock().unwrap(), vec![(4, "direct".to_string())]);
    assert_eq!(*copies.lock().unwrap(), 1);
    assert_eq!(note.text, "direct");
}

#[test]
fn deliver_serves_every_recipient_that_is_there() {
    let journal = Arc::new(Mutex::new(Vec::new()));
    let copies = Arc::new(Mutex::new(0));
    let note = Note {
        text: "round".to_string(),
        copies: Arc::clone(&copies),
    };
    let first: Box<dyn NotificationHandler<Note>> = Box::new(Scribe {
        label: 1,
        journal: Arc::clone(&journal),
    });
    let second: Box<dyn NotificationHandler<Note>> = Box::new(Scribe {
        label: 2,
        journal: Arc::clone(&journal),
    });
    let third: Box<dyn NotificationHandler<Note>> = Box::new(Scribe {
        label: 3,
        journal: Arc::clone(&journal),
    });

    let none: Vec<Option<&Box<dyn NotificationHandler<Note>>>> = Vec::new();
    assert_eq!(deliver(&none, &note), 0);

    let recipients = vec![Some(&third), None, Some(&first), Some(&second), None];
    assert_eq!(deliver(&recipients, &note), 3);

    assert_eq!(
        *journal.lock().unwrap(),
        vec![
            (3, "round".to_string()),
            (1, "round".to_string()),
            (2, "round".to_string())
        ]
    );
    assert_eq!(*copies.lock().unwrap(), 3);
}

#[test]
fn recipients_has_one_place_per_subscriber() {
    let was_called = Arc::new(Mutex::new(false));
    let journal = Arc::new(Mutex::new(Vec::new()));
    let mut mediator = Mediator::new();
    assert_eq!(mediator.recipients::<Note>(&TypeId::of::<Note>()).len(), 0);

    mediator.register_notification(Scribe {
        label: 1,
        journal: Arc::clone(&journal),
    });
    mediator.subscribe(
        TypeId::of::<Note>(),
        ErasedHandler::for_notification::<Ping, _>(PingHandler {
            was_called: Arc::clone(&was_called),
        }),
    );
    mediator.register_notification(Scribe {
        label: 2,
        journal: Arc::clone(&journal),
    });

    let found = mediator.recipients::<Note>(&TypeId::of::<Note>());
    assert_eq!(found.len(), 3);
    assert!(found[0].is_some());
    assert!(found[1].is_none());
    assert!(found[2].is_some());
    assert_eq!(mediator.recipients::<Note>(&TypeId::of::<Ping>()).len(), 0);
}
