//! The activities that federate a deletion, and where they are sent.

use vstd::prelude::*;
use activitystreams::activity::kind::UndoType;
use activitystreams::unparsed::Unparsed;

use crate::objects::text_of;
use crate::urls::{clone_urls, url_texts, Url};

verus! {

/// The type tag `activitystreams::activity::kind::UndoType`, carried through unread.
#[verifier::external_type_specification]
#[verifier::external_body]
pub struct ExUndoType(UndoType);

/// `activitystreams::unparsed::Unparsed`, the JSON members that no field names, carried through
/// unread.
#[verifier::external_type_specification]
#[verifier::external_body]
pub struct ExUnparsed(Unparsed);

/// Tells the federation that `actor` has deleted `object`.
#[derive(Debug, PartialEq, Eq)]
pub struct Delete {
    pub id: Url,
    pub actor: Url,
    pub to: Vec<Url>,
    pub object: Url,
    /// Why a moderator removed the object; unset where its owner deleted it.
    pub summary: Option<String>,
    /// On the deletion of a person: whether what they wrote goes too.
    pub remove_data: Option<bool>,
}

/// The model of a [`Delete`].
pub struct DeleteView {
    pub id: Seq<char>,
    pub actor: Seq<char>,
    pub to: Seq<Seq<char>>,
    pub object: Seq<char>,
    pub summary: Option<Seq<char>>,
    pub remove_data: Option<bool>,
}

impl View for Delete {
    type V = DeleteView;

    open spec fn view(&self) -> DeleteView {
        DeleteView {
            id: self.id@,
            actor: self.actor@,
            to: url_texts(self.to@),
            object: self.object@,
            summary: text_of(self.summary),
            remove_data: self.remove_data,
        }
    }
}

impl Clone for Delete {
    fn clone(&self) -> (res: Self)
        ensures
            res@ == self@,
    {
        Delete {
            id: self.id.clone(),
            actor: self.actor.clone(),
            to: clone_urls(&self.to),
            object: self.object.clone(),
            summary: match &self.summary {
                Some(s) => Some(s.clone()),
                None => None,
            },
            remove_data: self.remove_data,
        }
    }
}

/// Takes back an earlier [`Delete`].
#[derive(Debug)]
pub struct UndoDelete {
    pub actor: Url,
    pub to: Vec<Url>,
    pub object: Delete,
    pub cc: Vec<Url>,
    pub kind: UndoType,
    pub id: Url,
    pub unparsed: Unparsed,
}

/// The model of an [`UndoDelete`].
pub struct UndoDeleteView {
    pub actor: Seq<char>,
    pub to: Seq<Seq<char>>,
    pub object: DeleteView,
    pub cc: Seq<Seq<char>>,
    pub kind: UndoType,
    pub id: Seq<char>,
    pub unparsed: Unparsed,
}

impl View for UndoDelete {
    type V = UndoDeleteView;

    open spec fn view(&self) -> UndoDeleteView {
        UndoDeleteView {
            actor: self.actor@,
            to: url_texts(self.to@),
            object: self.object@,
            cc: url_texts(self.cc@),
            kind: self.kind,
            id: self.id@,
            unparsed: self.unparsed,
        }
    }
}

/// An activity that goes out.
#[derive(Debug)]
pub enum AnnouncableActivities {
    Delete(Delete),
    UndoDelete(UndoDelete),
}

/// The model of [`AnnouncableActivities`].
pub enum AnnouncableActivitiesView {
    Delete(DeleteView),
    UndoDelete(UndoDeleteView),
}

impl View for AnnouncableActivities {
    type V = AnnouncableActivitiesView;

    open spec fn view(&self) -> AnnouncableActivitiesView {
        match self {
            AnnouncableActivities::Delete(d) => AnnouncableActivitiesView::Delete(d@),
            AnnouncableActivities::UndoDelete(u) => AnnouncableActivitiesView::UndoDelete(u@),
        }
    }
}

/// The inboxes that an activity is delivered to, beyond those that its sending implies.
#[derive(Debug, PartialEq, Eq)]
pub enum ActivitySendTargets {
    /// None.
    Empty,
    /// A single inbox.
    Inbox(Url),
    /// The inboxes of all known instances.
    AllInstances,
}

/// The model of [`ActivitySendTargets`].
pub enum ActivitySendTargetsView {
    Empty,
    Inbox(Seq<char>),
    AllInstances,
}

impl View for ActivitySendTargets {
    type V = ActivitySendTargetsView;

    open spec fn view(&self) -> ActivitySendTargetsView {
        match self {
            ActivitySendTargets::Empty => ActivitySendTargetsView::Empty,
            ActivitySendTargets::Inbox(u) => ActivitySendTargetsView::Inbox(u@),
            ActivitySendTargets::AllInstances => ActivitySendTargetsView::AllInstances,
        }
    }
}

} // verus!
