use vstd::prelude::*;

use crate::model::{CreatedByResponse, CreatedByView, UserModel};
use crate::text::{clone_opt, opt_text};

verus! {

/// A piece of content as the repository holds it. Times are whole seconds
/// since the Unix epoch.
#[derive(Debug, Clone)]
pub struct ContentModel {
    pub id: String,
    pub content_type: String,
    pub title: String,
    pub summary: Option<String>,
    pub details: Option<String>,
    pub content_image: Option<String>,
    pub record_state: i8,
    pub protected: i8,
    pub created_at: Option<i64>,
    pub updated_at: Option<i64>,
    pub deleted_at: Option<i64>,
    pub created_by: String,
}

/// A piece of content as it is shown, with the principal that created it.
#[allow(non_snake_case)]
#[derive(Debug)]
pub struct ContentModelResponse {
    pub id: String,
    pub content_type: String,
    pub title: String,
    pub summary: Option<String>,
    pub details: Option<String>,
    pub contentImage: Option<String>,
    pub recordState: bool,
    pub protected: bool,
    pub createdAt: Option<i64>,
    pub updatedAt: Option<i64>,
    pub deletedAt: Option<i64>,
    pub createdBy: CreatedByResponse,
}

#[allow(non_snake_case)]
pub struct ContentView {
    pub id: Seq<char>,
    pub content_type: Seq<char>,
    pub title: Seq<char>,
    pub summary: Option<Seq<char>>,
    pub details: Option<Seq<char>>,
    pub contentImage: Option<Seq<char>>,
    pub recordState: bool,
    pub protected: bool,
    pub createdAt: Option<i64>,
    pub updatedAt: Option<i64>,
    pub deletedAt: Option<i64>,
    pub createdBy: CreatedByView,
}

impl View for ContentModelResponse {
    type V = ContentView;

    open spec fn view(&self) -> ContentView {
        ContentView {
            id: self.id@,
            content_type: self.content_type@,
            title: self.title@,
            summary: opt_text(self.summary),
            details: opt_text(self.details),
            contentImage: opt_text(self.contentImage),
            recordState: self.recordState,
            protected: self.protected,
            createdAt: self.createdAt,
            updatedAt: self.updatedAt,
            deletedAt: self.deletedAt,
            createdBy: self.createdBy@,
        }
    }
}

impl ContentModelResponse {
    pub fn filter_db(content: &mut ContentModel, user: &UserModel) -> (shown: ContentModelResponse)
        ensures
            *final(content) == *old(content),
            shown@ == (ContentView {
                id: old(content).id@,
                content_type: old(content).content_type@,
                title: old(content).title@,
                summary: opt_text(old(content).summary),
                details: opt_text(old(content).details),
                contentImage: opt_text(old(content).content_image),
                recordState: old(content).record_state != 0,
                protected: old(content).protected != 0,
                createdAt: old(content).created_at,
                updatedAt: old(content).updated_at,
                deletedAt: old(content).deleted_at,
                createdBy: CreatedByView {
                    id: user@.id,
                    name: user@.name,
                    roleId: user@.role_id,
                    active: user@.is_active(),
                },
            }),
    {
        ContentModelResponse {
            id: content.id.clone(),
            content_type: content.content_type.clone(),
            title: content.title.clone(),
            summary: clone_opt(&content.summary),
            details: clone_opt(&content.details),
            contentImage: clone_opt(&content.content_image),
            recordState: content.record_state != 0,
            protected: content.protected != 0,
            createdAt: content.created_at,
            updatedAt: content.updated_at,
            deletedAt: content.deleted_at,
            createdBy: CreatedByResponse::filter_db(user),
        }
    }
}

} // verus!
