//! From what the address type made of each entry to the list of destinations.
use crate::error::{SettingsError, SettingsErrorView};
use sendgrid::v3::Email;
use vstd::prelude::*;

verus! {

/// Whether `index` is the first place at which an entry was refused.
pub open spec fn is_first_refusal<'a>(
    rulings: Seq<Result<Email<'a>, Seq<char>>>,
    index: int,
) -> bool {
    &&& 0 <= index < rulings.len()
    &&& rulings[index] is Err
    &&& forall|earlier: int| 0 <= earlier < index ==> (#[trigger] rulings[earlier]) is Ok
}

/// The first place at which an entry was refused, where there is one.
pub open spec fn first_refusal<'a>(rulings: Seq<Result<Email<'a>, Seq<char>>>) -> int {
    choose|index: int| is_first_refusal(rulings, index)
}

/// The destinations that the rulings on the entries of a list give. Where
/// every entry was accepted: the addresses, one for each entry and in the
/// entries' order. Where one was refused: no address at all, and the failure
/// that carries the message of the first refusal.
pub open spec fn gathered<'a>(rulings: Seq<Result<Email<'a>, Seq<char>>>) -> Result<
    Seq<Email<'a>>,
    SettingsErrorView,
> {
    if forall|index: int| 0 <= index < rulings.len() ==> (#[trigger] rulings[index]) is Ok {
        Ok(rulings.map_values(|ruling: Result<Email<'a>, Seq<char>>| ruling->Ok_0))
    } else {
        Err(SettingsErrorView::EmailAddressError(rulings[first_refusal(rulings)]->Err_0))
    }
}

/// A ruling as contracts see it: the message by its characters.
pub open spec fn ruling_view<'a>(ruling: Result<Email<'a>, String>) -> Result<
    Email<'a>,
    Seq<char>,
> {
    match ruling {
        Ok(made) => Ok(made),
        Err(message) => Err(message@),
    }
}

/// Each ruling as contracts see it.
pub open spec fn ruling_views<'a>(rulings: Seq<Result<Email<'a>, String>>) -> Seq<
    Result<Email<'a>, Seq<char>>,
> {
    rulings.map_values(|ruling: Result<Email<'a>, String>| ruling_view(ruling))
}

/// The outcome of gathering as contracts see it.
pub open spec fn gathered_view<'a>(outcome: Result<Vec<Email<'a>>, SettingsError>) -> Result<
    Seq<Email<'a>>,
    SettingsErrorView,
> {
    match outcome {
        Ok(destinations) => Ok(destinations@),
        Err(error) => Err(error@),
    }
}

/// Where a first refusal is found, it is the one [`first_refusal`] speaks of.
pub proof fn lemma_first_refusal_is<'a>(rulings: Seq<Result<Email<'a>, Seq<char>>>, index: int)
    requires
        is_first_refusal(rulings, index),
    ensures
        first_refusal(rulings) == index,
{
    let chosen = first_refusal(rulings);
    assert(is_first_refusal(rulings, chosen));
    if chosen < index {
        assert(rulings[chosen] is Ok);
    } else if index < chosen {
        assert(rulings[index] is Ok);
    }
}

/// Where an entry was refused and none before it, the outcome is the failure
/// with that refusal's message, whatever was made of the entries behind it.
pub proof fn lemma_first_refusal_is_reported<'a>(
    rulings: Seq<Result<Email<'a>, Seq<char>>>,
    index: int,
)
    requires
        is_first_refusal(rulings, index),
    ensures
        gathered(rulings) == Err::<Seq<Email<'a>>, SettingsErrorView>(
            SettingsErrorView::EmailAddressError(rulings[index]->Err_0),
        ),
{
    lemma_first_refusal_is(rulings, index);
}

/// One refusal, wherever it stands, fails the whole list, and nothing else
/// does; a failure is an address error.
pub proof fn lemma_fails_exactly_when_refused<'a>(rulings: Seq<Result<Email<'a>, Seq<char>>>)
    ensures
        gathered(rulings) is Err <==> exists|index: int|
            0 <= index < rulings.len() && (#[trigger] rulings[index]) is Err,
        gathered(rulings) matches Err(error) ==> error is EmailAddressError,
        gathered(rulings) matches Ok(destinations) ==> destinations.len() == rulings.len(),
{
}

/// Gathers the destinations from the rulings on the entries of a list, which
/// come in the entries' order: all the addresses, or no address and the first
/// refusal.
pub fn gather<'a>(rulings: Vec<Result<Email<'a>, String>>) -> (outcome: Result<
    Vec<Email<'a>>,
    SettingsError,
>)
    ensures
        gathered_view(outcome) == gathered(ruling_views(rulings@)),
{
    let ghost all = ruling_views(rulings@);
    let mut destinations: Vec<Email<'a>> = Vec::new();
    for ruling in it: rulings
        invariant
            ruling_views(it.seq()) == all,
            destinations@.len() == it.index(),
            forall|earlier: int|
                0 <= earlier < it.index() ==> (#[trigger] all[earlier]) == Ok::<
                    Email<'a>,
                    Seq<char>,
                >(destinations@[earlier]),
    {
        assert(all[it.index()] == ruling_view(ruling));
        match ruling {
            Ok(made) => {
                destinations.push(made);
            },
            Err(message) => {
                proof {
                    lemma_first_refusal_is(all, it.index());
                }
                return Err(SettingsError::EmailAddressError(message));
            },
        }
    }
    assert(destinations@ =~= all.map_values(|ruling: Result<Email<'a>, Seq<char>>| ruling->Ok_0));
    Ok(destinations)
}

} // verus!
