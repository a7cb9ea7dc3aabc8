//! The pantry page: the food items on hand and a text filter over them.
use vstd::prelude::*;

use crate::errors::ApiError;
use crate::models::FoodItem;
use crate::text::{contains_seq, lower_of, str_contains, to_lowercase};

verus! {

/// Pantry state.
#[derive(Debug)]
pub struct State {
    /// Food items.
    pub items: Vec<FoodItem>,
    /// Filter text.
    pub filter_text: String,
    /// Loading state.
    pub loading: bool,
}

impl State {
    /// The state the page starts in: no items, no filter, nothing pending.
    pub open spec fn is_initial(self) -> bool {
        &&& self.items@ == Seq::<FoodItem>::empty()
        &&& self.filter_text@ == Seq::<char>::empty()
        &&& !self.loading
    }
}

impl Default for State {
    fn default() -> (r: Self)
        ensures
            r.is_initial(),
    {
        State { items: Vec::new(), filter_text: String::new(), loading: false }
    }
}

/// Pantry messages.
#[derive(Debug, PartialEq, Eq)]
pub enum PantryMessage {
    /// Items loaded.
    ItemsLoaded(Vec<FoodItem>),
    /// Load items.
    LoadItems,
    /// Filter text changed.
    FilterChanged(String),
    /// Add item.
    AddItem(FoodItem),
    /// Remove item.
    RemoveItem(String),
}

/// What the binary is asked to perform after an update.
#[derive(Debug, PartialEq, Eq)]
pub enum Command {
    /// Nothing.
    NoOp,
    /// Fetch the pantry items from the backend.
    FetchItems,
}

/// How one message takes the page from `pre` to `post`, asking for `cmd`.
pub open spec fn update_rel(pre: State, msg: PantryMessage, post: State, cmd: Command) -> bool {
    match msg {
        PantryMessage::ItemsLoaded(items) => {
            &&& post.items == items
            &&& post.filter_text == pre.filter_text
            &&& !post.loading
            &&& cmd == Command::NoOp
        },
        PantryMessage::LoadItems => {
            &&& post.items == pre.items
            &&& post.filter_text == pre.filter_text
            &&& post.loading
            &&& cmd == Command::FetchItems
        },
        PantryMessage::FilterChanged(text) => {
            &&& post.items == pre.items
            &&& post.filter_text == text
            &&& post.loading == pre.loading
            &&& cmd == Command::NoOp
        },
        PantryMessage::AddItem(_) => {
            &&& post == pre
            &&& cmd == Command::NoOp
        },
        PantryMessage::RemoveItem(_) => {
            &&& post == pre
            &&& cmd == Command::NoOp
        },
    }
}

/// Update pantry state.
pub fn update(state: &mut State, message: PantryMessage) -> (cmd: Command)
    ensures
        update_rel(*old(state), message, *final (state), cmd),
{
    match message {
        PantryMessage::ItemsLoaded(items) => {
            state.items = items;
            state.loading = false;
            Command::NoOp
        },
        PantryMessage::LoadItems => {
            state.loading = true;
            Command::FetchItems
        },
        PantryMessage::FilterChanged(text) => {
            state.filter_text = text;
            Command::NoOp
        },
        PantryMessage::AddItem(_) => Command::NoOp,
        PantryMessage::RemoveItem(_) => Command::NoOp,
    }
}

/// The message a finished item fetch feeds back: the items where the call
/// succeeded, an empty list where it failed.
pub fn items_outcome_message(result: Result<Vec<FoodItem>, ApiError>) -> (m: PantryMessage)
    ensures
        match result {
            Ok(items) => m == PantryMessage::ItemsLoaded(items),
            Err(_) => m matches PantryMessage::ItemsLoaded(v) && v@ == Seq::<FoodItem>::empty(),
        },
{
    match result {
        Ok(items) => PantryMessage::ItemsLoaded(items),
        Err(_) => PantryMessage::ItemsLoaded(Vec::new()),
    }
}

/// An item passes a (lowercased) filter when its name or its category
/// contains the filter, compared case-insensitively.
pub open spec fn matches_filter(item: FoodItem, filter_lower: Seq<char>) -> bool {
    ||| contains_seq(lower_of(item.name@), filter_lower)
    ||| contains_seq(lower_of(item.category@), filter_lower)
}

/// The items that pass the filter, in the order they were in.
pub open spec fn filtered(items: Seq<FoodItem>, filter_lower: Seq<char>) -> Seq<FoodItem>
    decreases items.len(),
{
    if items.len() == 0 {
        Seq::empty()
    } else {
        let rest = filtered(items.drop_last(), filter_lower);
        if matches_filter(items.last(), filter_lower) {
            rest.push(items.last())
        } else {
            rest
        }
    }
}

/// The items a filter leaves visible: all of them for an empty filter,
/// otherwise those whose name or category contains the filter,
/// case-insensitively.
pub fn filter_items(items: &Vec<FoodItem>, filter_text: &str) -> (r: Vec<FoodItem>)
    ensures
        filter_text@.len() == 0 ==> r@ == items@,
        filter_text@.len() > 0 ==> r@ == filtered(items@, lower_of(filter_text@)),
{
    if filter_text.is_empty() {
        let mut out: Vec<FoodItem> = Vec::new();
        let mut i: usize = 0;
        while i < items.len()
            invariant
                0 <= i <= items@.len(),
                out@ == items@.subrange(0, i as int),
            decreases items@.len() - i,
        {
            out.push(items[i].clone());
            proof {
                assert(items@.subrange(0, i as int).push(items@[i as int]) =~= items@.subrange(
                    0,
                    i + 1,
                ));
            }
            i = i + 1;
        }
        proof {
            assert(items@.subrange(0, items@.len() as int) =~= items@);
        }
        out
    } else {
        let needle = to_lowercase(filter_text);
        let mut out: Vec<FoodItem> = Vec::new();
        let mut i: usize = 0;
        while i < items.len()
            invariant
                0 <= i <= items@.len(),
                needle@ == lower_of(filter_text@),
                out@ == filtered(items@.subrange(0, i as int), lower_of(filter_text@)),
            decreases items@.len() - i,
        {
            let item = &items[i];
            let name_lower = to_lowercase(item.name.as_str());
            let category_lower = to_lowercase(item.category.as_str());
            let keep = str_contains(name_lower.as_str(), needle.as_str()) || str_contains(
                category_lower.as_str(),
                needle.as_str(),
            );
            if keep {
                out.push(item.clone());
            }
            proof {
                assert(items@.subrange(0, i + 1).drop_last() =~= items@.subrange(0, i as int));
                assert(items@.subrange(0, i + 1).last() == items@[i as int]);
            }
            i = i + 1;
        }
        proof {
            assert(items@.subrange(0, items@.len() as int) =~= items@);
        }
        out
    }
}

} // verus!
