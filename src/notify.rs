use crate::cache::opt_view;
use vstd::prelude::*;

verus! {

/// How desktop notifications reach the user, chosen once per platform.
#[derive(Clone, Copy, Debug, PartialEq, Eq, Structural)]
pub enum NotificationSink {
    /// Run the command-line notifier with the title and body as arguments.
    ExternalProcess,
    /// Show a notification object through the native notification API.
    NativeApi,
}

/// The command-line notifier run by `NotificationSink::ExternalProcess`.
pub const NOTIFIER_PROGRAM: &'static str = "notify-send";

/// The sink for the platform: the command-line notifier on Linux, the
/// native API everywhere else.
pub fn sink_for_platform(is_linux: bool) -> (r: NotificationSink)
    ensures
        r == (if is_linux { NotificationSink::ExternalProcess } else { NotificationSink::NativeApi }),
{
    if is_linux {
        NotificationSink::ExternalProcess
    } else {
        NotificationSink::NativeApi
    }
}

/// The view of an optional string slice.
pub open spec fn opt_str_view(o: Option<&str>) -> Option<Seq<char>> {
    match o {
        Some(s) => Some(s@),
        None => None,
    }
}

/// The arguments of the command-line notifier: the title, then the body if
/// there is one.
pub open spec fn notifier_args_spec(title: Seq<char>, body: Option<Seq<char>>) -> Seq<Seq<char>> {
    match body {
        Some(b) => seq![title, b],
        None => seq![title],
    }
}

/// The views of a list of strings.
pub open spec fn strings_view(v: Seq<String>) -> Seq<Seq<char>> {
    v.map_values(|s: String| s@)
}

/// The argument list handed to the command-line notifier.
pub fn notifier_args(title: &str, body: Option<&str>) -> (r: Vec<String>)
    ensures
        r@.len() == notifier_args_spec(title@, opt_str_view(body)).len(),
        strings_view(r@) == notifier_args_spec(title@, opt_str_view(body)),
{
    let mut args: Vec<String> = Vec::new();
    args.push(title.to_owned());
    match body {
        Some(b) => args.push(b.to_owned()),
        None => {},
    }
    assert(strings_view(args@) =~= notifier_args_spec(title@, opt_str_view(body)));
    args
}

/// A notification for the native API: a summary line and an optional body.
#[derive(Debug)]
pub struct NativeNotification {
    pub summary: String,
    pub body: Option<String>,
}

/// What to do to deliver a notification.
#[derive(Debug)]
pub enum NotificationAction {
    /// Run `program` with `args`.
    Run { program: &'static str, args: Vec<String> },
    /// Show this notification through the native API.
    Show(NativeNotification),
}

/// How to deliver the notification with `title` and optional `body` through
/// `sink`.
pub fn plan_notification(sink: NotificationSink, title: &str, body: Option<&str>) -> (r:
    NotificationAction)
    ensures
        sink == NotificationSink::ExternalProcess ==> r is Run && r->program@ == NOTIFIER_PROGRAM@
            && strings_view(r->args@) == notifier_args_spec(title@, opt_str_view(body)),
        sink == NotificationSink::NativeApi ==> r is Show && r->Show_0.summary@ == title@
            && opt_view(r->Show_0.body) == opt_str_view(body),
{
    match sink {
        NotificationSink::ExternalProcess => NotificationAction::Run {
            program: NOTIFIER_PROGRAM,
            args: notifier_args(title, body),
        },
        NotificationSink::NativeApi => {
            let body = match body {
                Some(b) => Some(b.to_owned()),
                None => None,
            };
            NotificationAction::Show(NativeNotification { summary: title.to_owned(), body })
        },
    }
}

/// A notification that the native API failed to show: fatal to the caller.
#[derive(Clone, Copy, Debug, PartialEq, Eq, Structural)]
pub struct NotificationDispatchError;

/// How a dispatch that did not fail the caller ended.
#[derive(Clone, Copy, Debug, PartialEq, Eq, Structural)]
pub enum Dispatched {
    /// The notification was delivered.
    Delivered,
    /// The command-line notifier failed; the failure is only logged.
    FailureLogged,
}

/// The outcome of a dispatch through `sink` that `delivered` or not. A
/// failure of the command-line notifier is only logged and the caller goes
/// on; a failure of the native API is an error for the caller.
pub fn settle_notification(sink: NotificationSink, delivered: bool) -> (r: Result<
    Dispatched,
    NotificationDispatchError,
>)
    ensures
        delivered ==> r == Ok::<Dispatched, NotificationDispatchError>(Dispatched::Delivered),
        !delivered && sink == NotificationSink::ExternalProcess ==> r == Ok::<
            Dispatched,
            NotificationDispatchError,
        >(Dispatched::FailureLogged),
        !delivered && sink == NotificationSink::NativeApi ==> r == Err::<
            Dispatched,
            NotificationDispatchError,
        >(NotificationDispatchError),
{
    if delivered {
        Ok(Dispatched::Delivered)
    } else {
        match sink {
            NotificationSink::ExternalProcess => Ok(Dispatched::FailureLogged),
            NotificationSink::NativeApi => Err(NotificationDispatchError),
        }
    }
}

} // verus!
