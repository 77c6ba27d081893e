use vstd::prelude::*;

verus! {

/// One of the calls a run makes into the extension.
#[derive(Clone, Copy, Debug, PartialEq, Eq, Structural)]
pub enum StageKind {
    Initialize,
    ListTopLevel,
    FetchDetail,
    ListSubItems,
    ListLeafItems,
}

impl StageKind {
    /// The name the stage is reported under.
    pub fn name(self) -> (r: &'static str)
        ensures
            self == StageKind::Initialize ==> r@ == "initialize"@,
            self == StageKind::ListTopLevel ==> r@ == "get_manga_list"@,
            self == StageKind::FetchDetail ==> r@ == "get_manga_details"@,
            self == StageKind::ListSubItems ==> r@ == "get_chapter_list"@,
            self == StageKind::ListLeafItems ==> r@ == "get_page_list"@,
    {
        match self {
            StageKind::Initialize => "initialize",
            StageKind::ListTopLevel => "get_manga_list",
            StageKind::FetchDetail => "get_manga_details",
            StageKind::ListSubItems => "get_chapter_list",
            StageKind::ListLeafItems => "get_page_list",
        }
    }
}

/// Where a run stands: the next call to make, with its inputs, or the end.
#[derive(Clone, Debug, PartialEq)]
pub enum Step {
    Initialize,
    /// List the top-level items, with no filters, on the given page.
    ListTopLevel { page: u32 },
    FetchDetail { item_id: String },
    ListSubItems { item_id: String },
    ListLeafItems { item_id: String, sub_item_id: String },
    Done,
}

/// What the call of a step gave back.
#[derive(Clone, Debug, PartialEq)]
pub enum Reply {
    /// The call succeeded; these are the identifiers of what it listed, in
    /// order, and none for a call that lists nothing.
    Succeeded(Vec<String>),
    Failed,
}

/// Why a run stopped early.
#[derive(Clone, Copy, Debug, PartialEq, Eq, Structural)]
pub enum RunError {
    /// The call of this stage failed.
    Failed(StageKind),
    /// This stage listed nothing, so the next stage has no input.
    NothingListed(StageKind),
}

/// The stage of a step that makes a call.
pub open spec fn kind_of(step: Step) -> StageKind
    recommends
        step !is Done,
{
    match step {
        Step::Initialize => StageKind::Initialize,
        Step::ListTopLevel { .. } => StageKind::ListTopLevel,
        Step::FetchDetail { .. } => StageKind::FetchDetail,
        Step::ListSubItems { .. } => StageKind::ListSubItems,
        _ => StageKind::ListLeafItems,
    }
}

impl Step {
    /// The stage this step calls, or `None` at the end of a run.
    pub fn kind(&self) -> (r: Option<StageKind>)
        ensures
            *self is Done ==> r is None,
            *self !is Done ==> r == Some(kind_of(*self)),
    {
        match self {
            Step::Initialize => Some(StageKind::Initialize),
            Step::ListTopLevel { .. } => Some(StageKind::ListTopLevel),
            Step::FetchDetail { .. } => Some(StageKind::FetchDetail),
            Step::ListSubItems { .. } => Some(StageKind::ListSubItems),
            Step::ListLeafItems { .. } => Some(StageKind::ListLeafItems),
            Step::Done => None,
        }
    }
}

/// Moves a run on after the call of `step` gave `reply`. The stages follow
/// one fixed order; the first listed item is the one whose detail and
/// sub-items are fetched, and the first sub-item the one whose leaves are
/// listed. A failed call, or an empty list where an item must be chosen,
/// ends the run.
pub fn advance(step: Step, reply: Reply) -> (r: Result<Step, RunError>)
    requires
        step !is Done,
    ensures
        reply is Failed ==> r == Err::<Step, RunError>(RunError::Failed(kind_of(step))),
        reply matches Reply::Succeeded(ids) ==> match step {
            Step::Initialize => r == Ok::<Step, RunError>(Step::ListTopLevel { page: 0 }),
            Step::ListTopLevel { .. } => if ids@.len() > 0 {
                r == Ok::<Step, RunError>(Step::FetchDetail { item_id: ids@[0] })
            } else {
                r == Err::<Step, RunError>(RunError::NothingListed(StageKind::ListTopLevel))
            },
            Step::FetchDetail { item_id } => r == Ok::<Step, RunError>(
                Step::ListSubItems { item_id },
            ),
            Step::ListSubItems { item_id } => if ids@.len() > 0 {
                r == Ok::<Step, RunError>(
                    Step::ListLeafItems { item_id, sub_item_id: ids@[0] },
                )
            } else {
                r == Err::<Step, RunError>(RunError::NothingListed(StageKind::ListSubItems))
            },
            _ => r == Ok::<Step, RunError>(Step::Done),
        },
{
    let ids = match reply {
        Reply::Failed => {
            let kind = match step {
                Step::Initialize => StageKind::Initialize,
                Step::ListTopLevel { .. } => StageKind::ListTopLevel,
                Step::FetchDetail { .. } => StageKind::FetchDetail,
                Step::ListSubItems { .. } => StageKind::ListSubItems,
                _ => StageKind::ListLeafItems,
            };
            return Err(RunError::Failed(kind));
        },
        Reply::Succeeded(ids) => ids,
    };
    match step {
        Step::Initialize => Ok(Step::ListTopLevel { page: 0 }),
        Step::ListTopLevel { .. } => {
            if ids.len() > 0 {
                Ok(Step::FetchDetail { item_id: ids[0].clone() })
            } else {
                Err(RunError::NothingListed(StageKind::ListTopLevel))
            }
        },
        Step::FetchDetail { item_id } => Ok(Step::ListSubItems { item_id }),
        Step::ListSubItems { item_id } => {
            if ids.len() > 0 {
                Ok(Step::ListLeafItems { item_id, sub_item_id: ids[0].clone() })
            } else {
                Err(RunError::NothingListed(StageKind::ListSubItems))
            }
        },
        _ => Ok(Step::Done),
    }
}

} // verus!
