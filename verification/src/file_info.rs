//! Asking Telegram where it holds a file, more than once if need be.

use vstd::prelude::*;

verus! {

/// How often Telegram is asked.
pub const MAX_ATTEMPTS: u32 = 3;

/// The seconds to wait after an attempt that failed.
pub const PAUSE_SECONDS: u64 = 5;

/// The path of a file and its size.
#[derive(Debug)]
pub struct FileInfo {
    pub path: String,
    pub size: u32,
}

/// An inquiry. Each state names what is to be done next.
#[derive(Debug)]
pub enum Inquiry {
    /// Ask for the path and the size of the file.
    Ask { attempt: u32 },
    /// Wait before the next attempt.
    Pause { attempt: u32, seconds: u64 },
    /// The path and the size, or why they are not known.
    Done { result: Result<FileInfo, String> },
}

/// The contents of an `Inquiry`.
pub enum InquiryView {
    Ask { attempt: u32 },
    Pause { attempt: u32, seconds: u64 },
    Done { result: Result<FileInfo, Seq<char>> },
}

impl View for Inquiry {
    type V = InquiryView;

    open spec fn view(&self) -> InquiryView {
        match *self {
            Inquiry::Ask { attempt } => InquiryView::Ask { attempt },
            Inquiry::Pause { attempt, seconds } => InquiryView::Pause { attempt, seconds },
            Inquiry::Done { result } => InquiryView::Done {
                result: match result {
                    Ok(info) => Ok(info),
                    Err(error) => Err(error@),
                },
            },
        }
    }
}

/// What came of the work that a state asks for.
#[derive(Debug)]
pub enum InquiryEvent {
    /// The path and the size, where the attempt succeeded.
    Answered(Option<FileInfo>),
    /// The pause is over.
    Resumed,
}

impl InquiryView {
    /// The attempts are counted from 1, and there is no pause after the last.
    pub open spec fn wf(self) -> bool {
        match self {
            InquiryView::Ask { attempt } => 1 <= attempt <= MAX_ATTEMPTS,
            InquiryView::Pause { attempt, seconds } => {
                1 <= attempt < MAX_ATTEMPTS && seconds == PAUSE_SECONDS
            },
            InquiryView::Done { .. } => true,
        }
    }
}

/// The state that follows `state` on `event`, where the event answers what the state asks for.
pub open spec fn next_inquiry(state: InquiryView, event: InquiryEvent) -> Option<InquiryView> {
    match (state, event) {
        (InquiryView::Ask { attempt }, InquiryEvent::Answered(answer)) => Some(
            match answer {
                Some(info) => InquiryView::Done { result: Ok(info) },
                None => if attempt == MAX_ATTEMPTS {
                    InquiryView::Done { result: Err("Failed to get file info"@) }
                } else {
                    InquiryView::Pause { attempt, seconds: PAUSE_SECONDS }
                },
            },
        ),
        (InquiryView::Pause { attempt, .. }, InquiryEvent::Resumed) => Some(
            InquiryView::Ask { attempt: (attempt + 1) as u32 },
        ),
        _ => None,
    }
}

/// A state that may be missing.
pub open spec fn inquiry_view(state: Option<Inquiry>) -> Option<InquiryView> {
    match state {
        Some(state) => Some(state@),
        None => None,
    }
}

impl Inquiry {
    /// An inquiry at its first attempt.
    pub fn new() -> (res: Inquiry)
        ensures
            res@ == (InquiryView::Ask { attempt: 1 }),
            res@.wf(),
    {
        Inquiry::Ask { attempt: 1 }
    }
}

/// Takes an inquiry one step on. An event that does not answer what the state asks for leads
/// nowhere.
pub fn get_file_info(state: Inquiry, event: InquiryEvent) -> (res: Option<Inquiry>)
    requires
        state@.wf(),
    ensures
        inquiry_view(res) == next_inquiry(state@, event),
        res is Some ==> res->0@.wf(),
{
    match (state, event) {
        (Inquiry::Ask { attempt }, InquiryEvent::Answered(answer)) => match answer {
            Some(info) => Some(Inquiry::Done { result: Ok(info) }),
            None => {
                if attempt == MAX_ATTEMPTS {
                    Some(Inquiry::Done { result: Err("Failed to get file info".to_owned()) })
                } else {
                    Some(Inquiry::Pause { attempt, seconds: PAUSE_SECONDS })
                }
            },
        },
        (Inquiry::Pause { attempt, .. }, InquiryEvent::Resumed) => Some(
            Inquiry::Ask { attempt: attempt + 1 },
        ),
        _ => None,
    }
}

/// Where an inquiry gets to on `events`.
pub open spec fn inquiry_end(state: InquiryView, events: Seq<InquiryEvent>) -> InquiryView
    decreases events.len(),
{
    if state is Done || events.len() == 0 {
        state
    } else {
        match next_inquiry(state, events[0]) {
            Some(next) => inquiry_end(next, events.drop_first()),
            None => state,
        }
    }
}

/// The first of three attempts that succeeds gives the result; only where all three fail does the
/// inquiry.
pub proof fn law_inquiry_tries_three_times(
    first: Option<FileInfo>,
    second: Option<FileInfo>,
    third: Option<FileInfo>,
)
    ensures
        inquiry_end(
            InquiryView::Ask { attempt: 1 },
            seq![
                InquiryEvent::Answered(first),
                InquiryEvent::Resumed,
                InquiryEvent::Answered(second),
                InquiryEvent::Resumed,
                InquiryEvent::Answered(third),
            ],
        ) == (InquiryView::Done {
            result: if first is Some {
                Ok(first->0)
            } else if second is Some {
                Ok(second->0)
            } else if third is Some {
                Ok(third->0)
            } else {
                Err("Failed to get file info"@)
            },
        }),
{
    reveal_with_fuel(inquiry_end, 6);
}

/// An answer ends the inquiry with what it says, at whichever attempt it comes. After a first or a
/// second attempt that fails, the inquiry pauses for five seconds and asks again; a third that
/// fails ends it.
pub proof fn law_inquiry_pauses_between_attempts(attempt: u32, seconds: u64, info: FileInfo)
    requires
        1 <= attempt <= 3,
    ensures
        next_inquiry(InquiryView::Ask { attempt }, InquiryEvent::Answered(Some(info))) == Some(
            InquiryView::Done { result: Ok(info) },
        ),
        attempt < 3 ==> next_inquiry(
            InquiryView::Ask { attempt },
            InquiryEvent::Answered(None),
        ) == Some(InquiryView::Pause { attempt, seconds: 5 }),
        attempt == 3 ==> next_inquiry(
            InquiryView::Ask { attempt },
            InquiryEvent::Answered(None),
        ) == Some(InquiryView::Done { result: Err("Failed to get file info"@) }),
        attempt < 3 ==> next_inquiry(
            InquiryView::Pause { attempt, seconds },
            InquiryEvent::Resumed,
        ) == Some(InquiryView::Ask { attempt: (attempt + 1) as u32 }),
{
}

/// The inquiry takes a step if and only if the event answers what its state asks for.
pub proof fn law_inquiry_takes_only_answers(state: InquiryView, event: InquiryEvent)
    ensures
        next_inquiry(state, event) is Some <==> {
            ||| state is Ask && event is Answered
            ||| state is Pause && event is Resumed
        },
{
}

/// The contents of a state are those of its parts.
pub proof fn law_inquiry_contents(state: Inquiry)
    ensures
        state matches Inquiry::Ask { attempt } ==> state@ == (InquiryView::Ask {
            attempt,
        }),
        state matches Inquiry::Pause { attempt, seconds } ==> state@ == (InquiryView::Pause {
            attempt,
            seconds,
        }),
        state matches Inquiry::Done { result: Ok(info) } ==> state@ == (InquiryView::Done {
            result: Ok(info),
        }),
        state matches Inquiry::Done { result: Err(error) } ==> state@ == (InquiryView::Done {
            result: Err(error@),
        }),
        inquiry_view(Some(state)) == Some(state@),
        inquiry_view(None) is None,
{
}

} // verus!
