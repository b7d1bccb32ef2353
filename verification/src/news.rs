//! News articles.

use crate::decode::{Decode, DecodeError, DecodeFault, Otherwise};
use crate::encode::{
    Encode, encode_quoted, encoded_quoted, lemma_quoted_one_reading, lemma_quoted_read_back,
    lemma_required_is_valid, lemma_required_one_reading, lemma_required_read_back,
};
use crate::fields::{quoted, quoted_failure, quoted_reads, required, required_failure, required_reads};
use crate::json::{Json, JsonValue, lemma_member_at, ObjectWriter};
use vstd::prelude::*;

verus! {

/// A news article. The API sends the number of comments as text.
#[derive(Clone, Debug, PartialEq)]
pub struct NewsArticle {
    pub title: String,
    pub date: String,
    pub forum_thread: String,
    pub author: String,
    pub content: String,
    pub comments: u64,
}

impl Decode for NewsArticle {
    open spec fn failure(j: JsonValue) -> Option<DecodeFault> {
        required_failure::<String>(j, "title"@)
            .otherwise(required_failure::<String>(j, "date"@))
            .otherwise(required_failure::<String>(j, "forumThread"@))
            .otherwise(required_failure::<String>(j, "author"@))
            .otherwise(required_failure::<String>(j, "content"@))
            .otherwise(quoted_failure::<u64>(j, "comments"@))
    }

    open spec fn reads(&self, j: JsonValue) -> bool {
        &&& required_reads(self.title, j, "title"@)
        &&& required_reads(self.date, j, "date"@)
        &&& required_reads(self.forum_thread, j, "forumThread"@)
        &&& required_reads(self.author, j, "author"@)
        &&& required_reads(self.content, j, "content"@)
        &&& quoted_reads(self.comments, j, "comments"@)
    }

    fn decode(j: &Json) -> (r: Result<Self, DecodeError>) {
        let title = required::<String>(j, "title")?;
        let date = required::<String>(j, "date")?;
        let forum_thread = required::<String>(j, "forumThread")?;
        let author = required::<String>(j, "author")?;
        let content = required::<String>(j, "content")?;
        let comments = quoted::<u64>(j, "comments")?;
        Ok(NewsArticle { title, date, forum_thread, author, content, comments })
    }
}

impl Encode for NewsArticle {
    open spec fn valid(&self) -> bool {
        &&& self.title.valid()
        &&& self.date.valid()
        &&& self.forum_thread.valid()
        &&& self.author.valid()
        &&& self.content.valid()
    }

    open spec fn encoded(&self) -> JsonValue {
        JsonValue::Object(
            seq![
                ("title"@, self.title.encoded()),
                ("date"@, self.date.encoded()),
                ("forumThread"@, self.forum_thread.encoded()),
                ("author"@, self.author.encoded()),
                ("content"@, self.content.encoded()),
                ("comments"@, encoded_quoted(self.comments)),
            ],
        )
    }

    fn encode(&self) -> (j: Json) {
        let j = ObjectWriter::new()
            .with("title", self.title.encode())
            .with("date", self.date.encode())
            .with("forumThread", self.forum_thread.encode())
            .with("author", self.author.encode())
            .with("content", self.content.encode())
            .with("comments", encode_quoted(&self.comments))
            .done();
        assert(j@->Object_0 =~= self.encoded()->Object_0);
        j
    }

    proof fn lemma_read_back(&self) {
        let j = self.encoded();
        let members = j->Object_0;
        reveal_strlit("title");
        assert("title"@.len() == 5);
        reveal_strlit("date");
        assert("date"@.len() == 4);
        reveal_strlit("forumThread");
        assert("forumThread"@.len() == 11);
        reveal_strlit("author");
        assert("author"@.len() == 6);
        reveal_strlit("content");
        assert("content"@.len() == 7);
        reveal_strlit("comments");
        assert("comments"@.len() == 8);
        lemma_member_at(members, "title"@, 0);
        lemma_required_read_back(&self.title, j, "title"@);
        lemma_member_at(members, "date"@, 1);
        lemma_required_read_back(&self.date, j, "date"@);
        lemma_member_at(members, "forumThread"@, 2);
        lemma_required_read_back(&self.forum_thread, j, "forumThread"@);
        lemma_member_at(members, "author"@, 3);
        lemma_required_read_back(&self.author, j, "author"@);
        lemma_member_at(members, "content"@, 4);
        lemma_required_read_back(&self.content, j, "content"@);
        lemma_member_at(members, "comments"@, 5);
        lemma_quoted_read_back(&self.comments, j, "comments"@);
    }

    proof fn lemma_one_reading(&self, other: &Self, j: JsonValue) {
        lemma_required_one_reading(&self.title, &other.title, j, "title"@);
        lemma_required_one_reading(&self.date, &other.date, j, "date"@);
        lemma_required_one_reading(&self.forum_thread, &other.forum_thread, j, "forumThread"@);
        lemma_required_one_reading(&self.author, &other.author, j, "author"@);
        lemma_required_one_reading(&self.content, &other.content, j, "content"@);
        lemma_quoted_one_reading(&self.comments, &other.comments, j, "comments"@);
    }

    proof fn lemma_read_is_valid(&self, j: JsonValue) {
        lemma_required_is_valid(&self.title, j, "title"@);
        lemma_required_is_valid(&self.date, j, "date"@);
        lemma_required_is_valid(&self.forum_thread, j, "forumThread"@);
        lemma_required_is_valid(&self.author, j, "author"@);
        lemma_required_is_valid(&self.content, j, "content"@);
    }
}

} // verus!
