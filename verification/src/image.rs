//! Decisions of the image commands: what to show while an image is pulled,
//! and whether images may be removed.

use crate::error::{HttpError, HttpErrorModel};
use crate::text::{same_text, texts};
use vstd::prelude::*;
use vstd::string::*;

verus! {

/// One message of the daemon while it pulls an image.
#[derive(Debug, PartialEq, Eq)]
pub struct PullInfo {
    /// Why the pull failed, if it did.
    pub error: Option<String>,
    /// What the daemon is doing.
    pub status: Option<String>,
    /// The layer that the message is about.
    pub id: Option<String>,
    /// How much of the layer is done.
    pub current: Option<i64>,
    /// How much there is to do for the layer.
    pub total: Option<i64>,
}

/// What to show for one message.
#[derive(Debug, PartialEq, Eq)]
pub struct PullStep {
    /// Whether a progress bar is to be made for the layer.
    pub fresh: bool,
    /// Where the layer's bar is to be put, in percent.
    pub position: Option<u64>,
    /// The line to print above the bars.
    pub print: Option<String>,
    /// The text to put beside the layer's bar.
    pub message: Option<String>,
}

/// A [`PullStep`] as a value.
pub struct PullStepModel {
    pub fresh: bool,
    pub position: Option<u64>,
    pub print: Option<Seq<char>>,
    pub message: Option<Seq<char>>,
}

impl View for PullStep {
    type V = PullStepModel;

    open spec fn view(&self) -> PullStepModel {
        PullStepModel {
            fresh: self.fresh,
            position: self.position,
            print: match self.print {
                Some(text) => Some(text@),
                None => None,
            },
            message: match self.message {
                Some(text) => Some(text@),
                None => None,
            },
        }
    }
}

/// An amount as the daemon reports it: none, or a negative one, counts as zero.
pub open spec fn amount(value: Option<i64>) -> u64 {
    match value {
        Some(value) => if value >= 0 {
            value as u64
        } else {
            0
        },
        None => 0,
    }
}

/// How much of `total` is `current`, in percent, rounded down: zero of
/// nothing, and never more than a hundred.
pub open spec fn percentage(current: u64, total: u64) -> u64 {
    if total == 0 {
        0
    } else if current >= total {
        100
    } else {
        (current * 100 / total as int) as u64
    }
}

/// An amount as the daemon reports it: see [`amount`].
pub fn progress_amount(value: Option<i64>) -> (units: u64)
    ensures
        units == amount(value),
{
    match value {
        Some(value) => if value >= 0 {
            value as u64
        } else {
            0
        },
        None => 0,
    }
}

/// How much of `total` is `current`, in percent: see [`percentage`].
pub fn calculate_percentage(current: u64, total: u64) -> (percent: u64)
    ensures
        percent == percentage(current, total),
        percent <= 100,
{
    if total == 0 {
        0
    } else if current >= total {
        100
    } else {
        let scaled: u128 = (current as u128) * 100;
        assert(scaled / (total as u128) < 100) by (nonlinear_arith)
            requires
                scaled == current * 100,
                current < total,
                total > 0,
        ;
        (scaled / (total as u128)) as u64
    }
}

/// The text of an option; empty where there is none.
pub open spec fn text_or_empty(text: Option<String>) -> Seq<char> {
    match text {
        Some(text) => text@,
        None => Seq::empty(),
    }
}

/// Whether the status is one that moves a layer's bar.
pub open spec fn moves_bar(status: Seq<char>) -> bool {
    status == "Pulling fs layer"@ || status == "Downloading"@ || status == "Extracting"@
}

/// The text beside a layer's bar: the layer in brackets, then the status.
pub open spec fn bar_message(id: Seq<char>, status: Seq<char>) -> Seq<char> {
    "["@ + id + "] "@ + status
}

/// How a failed pull is reported.
pub open spec fn pull_failure(name: Seq<char>, error: Seq<char>) -> HttpErrorModel {
    HttpErrorModel {
        status: 500,
        msg: "Error while downloading image "@ + name + " got error "@ + error,
    }
}

/// What to show for one message about a layer that has a bar (`known`) or
/// has none: a status that moves the bar puts it at the share that is done,
/// and makes the bar first where there is none; a finished download puts an
/// existing bar at a hundred; any other status is printed where the layer has
/// no bar. A layer that has a bar afterwards gets the status beside it.
pub open spec fn shown(known: bool, info: PullInfo) -> PullStepModel {
    let status = text_or_empty(info.status);
    let id = text_or_empty(info.id);
    let moves = moves_bar(status);
    PullStepModel {
        fresh: moves && !known,
        position: if moves {
            Some(percentage(amount(info.current), amount(info.total)))
        } else if status == "Download complete"@ && known {
            Some(100)
        } else {
            None
        },
        print: if !moves && status != "Download complete"@ && !known {
            Some(status)
        } else {
            None
        },
        message: if known || moves {
            Some(bar_message(id, status))
        } else {
            None
        },
    }
}

/// The layers that have a progress bar.
#[derive(Debug)]
pub struct LayerBoard {
    layers: Vec<String>,
}

impl LayerBoard {
    /// The layers that have a bar.
    pub closed spec fn layers(&self) -> Set<Seq<char>> {
        texts(self.layers@).to_set()
    }

    /// A board without a bar.
    pub fn new() -> (board: LayerBoard)
        ensures
            board.layers() == Set::<Seq<char>>::empty(),
    {
        let board = LayerBoard { layers: Vec::new() };
        board
    }

    /// Whether the layer has a bar.
    pub fn knows(&self, id: &str) -> (yes: bool)
        ensures
            yes == self.layers().contains(id@),
    {
        let mut i: usize = 0;
        while i < self.layers.len()
            invariant
                i <= self.layers@.len(),
                forall|j: int| 0 <= j < i ==> texts(self.layers@)[j] != id@,
            decreases self.layers@.len() - i,
        {
            if same_text(self.layers[i].as_str(), id) {
                assert(texts(self.layers@)[i as int] == id@);
                return true;
            }
            i += 1;
        }
        false
    }

    /// Takes one message of the pull of the image `name`, and says what to
    /// show for it: see [`shown`]. A layer whose bar is made has a bar from
    /// then on. A message that tells of a failure ends the pull: it is
    /// reported as 500, and the board stays as it is.
    pub fn step(&mut self, name: &str, info: &PullInfo) -> (result: Result<PullStep, HttpError>)
        ensures
            match info.error {
                Some(error) => result.is_err() && result.unwrap_err()@ == pull_failure(
                    name@,
                    error@,
                ) && final(self).layers() == old(self).layers(),
                None => {
                    let id = text_or_empty(info.id);
                    let step = shown(old(self).layers().contains(id), *info);
                    &&& result.is_ok()
                    &&& result.unwrap()@ == step
                    &&& final(self).layers() == if step.fresh {
                        old(self).layers().insert(id)
                    } else {
                        old(self).layers()
                    }
                },
            },
    {
        match &info.error {
            Some(error) => {
                let mut msg = String::from_str("Error while downloading image ");
                msg.append(name);
                msg.append(" got error ");
                msg.append(error.as_str());
                return Err(HttpError { status: 500, msg });
            },
            None => {},
        }
        let status = match &info.status {
            Some(status) => status.as_str(),
            None => "",
        };
        let id = match &info.id {
            Some(id) => id.as_str(),
            None => "",
        };
        proof {
            reveal_strlit("");
            assert(""@ =~= Seq::<char>::empty());
        }
        let known = self.knows(id);
        let moves = same_text(status, "Pulling fs layer") || same_text(status, "Downloading")
            || same_text(status, "Extracting");
        let complete = same_text(status, "Download complete");
        let position = if moves {
            Some(calculate_percentage(progress_amount(info.current), progress_amount(info.total)))
        } else if complete && known {
            Some(100)
        } else {
            None
        };
        let print = if !moves && !complete && !known {
            Some(String::from_str(status))
        } else {
            None
        };
        let message = if known || moves {
            let mut text = String::from_str("[");
            text.append(id);
            text.append("] ");
            text.append(status);
            Some(text)
        } else {
            None
        };
        let fresh = moves && !known;
        if fresh {
            let ghost before = texts(self.layers@);
            self.layers.push(String::from_str(id));
            proof {
                assert(texts(self.layers@) =~= before.push(id@));
                assert forall|x: Seq<char>| #[trigger]
                    before.push(id@).to_set().contains(x) <==> before.to_set().insert(
                        id@,
                    ).contains(x) by {
                    if before.contains(x) {
                        let k = choose|k: int| 0 <= k < before.len() && before[k] == x;
                        assert(before.push(id@)[k] == x);
                    }
                    if x == id@ {
                        assert(before.push(id@)[before.len() as int] == x);
                    }
                }
            }
        }
        Ok(PullStep { fresh, position, print, message })
    }
}

/// Texts joined by a separator.
pub open spec fn joined(parts: Seq<Seq<char>>, separator: Seq<char>) -> Seq<char>
    decreases parts.len(),
{
    if parts.len() == 0 {
        Seq::empty()
    } else if parts.len() == 1 {
        parts[0]
    } else {
        joined(parts.drop_last(), separator) + separator + parts.last()
    }
}

/// The question that is asked before images are removed.
pub open spec fn removal_question(names: Seq<Seq<char>>) -> Seq<char> {
    "Delete cargo images "@ + joined(names, ","@) + "?"@
}

/// The question that is asked before the images `names` are removed: it
/// lists them, with commas between them.
pub fn removal_prompt(names: &Vec<String>) -> (question: String)
    ensures
        question@ == removal_question(texts(names@)),
{
    let mut question = String::from_str("Delete cargo images ");
    let ghost start = question@;
    let mut i: usize = 0;
    while i < names.len()
        invariant
            i <= names@.len(),
            question@ == start + joined(texts(names@).take(i as int), ","@),
        decreases names@.len() - i,
    {
        proof {
            let next = texts(names@).take(i + 1);
            assert(next.drop_last() =~= texts(names@).take(i as int));
        }
        if i > 0 {
            question.append(",");
        }
        question.append(names[i].as_str());
        i += 1;
    }
    proof {
        assert(texts(names@).take(i as int) =~= texts(names@));
    }
    question.append("?");
    question
}

/// Whether images may be removed: if no confirmation was asked for, or if
/// the answer was yes. No answer counts as no.
pub fn removal_confirmed(skip_confirm: bool, answer: Option<bool>) -> (yes: bool)
    ensures
        yes == (skip_confirm || answer == Some(true)),
{
    skip_confirm || match answer {
        Some(answer) => answer,
        None => false,
    }
}

} // verus!
