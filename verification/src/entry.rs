//! One item of the feed: an episode that may be downloaded.

use vstd::prelude::*;

verus! {

/// One media object of an entry. Each of its content items may name a source
/// URL, or none.
pub struct MediaGroup {
    pub sources: Vec<Option<String>>,
}

/// One item of the feed. It is made once, when the feed is read, and never
/// changed.
pub struct Entry {
    /// The title, where the feed gives one.
    pub title: Option<String>,
    /// The time of publication in seconds since 1970-01-01 00:00:00 UTC, where
    /// the feed gives one.
    pub published: Option<i64>,
    /// The media objects, in the order of the feed.
    pub media: Vec<MediaGroup>,
}

/// The URLs that the content items of one media object name, in their order.
pub open spec fn group_urls(sources: Seq<Option<String>>) -> Seq<Seq<char>>
    decreases sources.len(),
{
    if sources.len() == 0 {
        Seq::empty()
    } else {
        match sources.last() {
            Some(u) => group_urls(sources.drop_last()).push(u@),
            None => group_urls(sources.drop_last()),
        }
    }
}

/// The URLs of a sequence of media objects, in their order.
pub open spec fn media_urls(media: Seq<MediaGroup>) -> Seq<Seq<char>>
    decreases media.len(),
{
    if media.len() == 0 {
        Seq::empty()
    } else {
        media_urls(media.drop_last()) + group_urls(media.last().sources@)
    }
}

/// The URLs of the first `k` content items stand at the start of the URLs of
/// all of them.
pub proof fn lemma_group_prefix(sources: Seq<Option<String>>, k: int)
    requires
        0 <= k <= sources.len(),
    ensures
        group_urls(sources.subrange(0, k)).is_prefix_of(group_urls(sources)),
    decreases sources.len(),
{
    if k == sources.len() {
        assert(sources.subrange(0, k) =~= sources);
    } else {
        lemma_group_prefix(sources.drop_last(), k);
        assert(sources.drop_last().subrange(0, k) =~= sources.subrange(0, k));
    }
}

/// The URLs of the first `k` media objects stand at the start of the URLs of
/// all of them.
pub proof fn lemma_media_prefix(media: Seq<MediaGroup>, k: int)
    requires
        0 <= k <= media.len(),
    ensures
        media_urls(media.subrange(0, k)).is_prefix_of(media_urls(media)),
    decreases media.len(),
{
    if k == media.len() {
        assert(media.subrange(0, k) =~= media);
    } else {
        lemma_media_prefix(media.drop_last(), k);
        assert(media.drop_last().subrange(0, k) =~= media.subrange(0, k));
    }
}

impl Entry {
    /// The title as text.
    pub open spec fn title_text(&self) -> Option<Seq<char>> {
        match self.title {
            Some(t) => Some(t@),
            None => None,
        }
    }

    /// The candidate source URLs, in the order of the feed.
    pub open spec fn candidate_urls(&self) -> Seq<Seq<char>> {
        media_urls(self.media@)
    }

    /// Whether any media object holds a content item, with or without a URL.
    pub open spec fn has_content(&self) -> bool {
        exists|g: int| 0 <= g < self.media@.len() && (#[trigger] self.media@[g]).sources@.len() > 0
    }

    /// The title, if the entry has one.
    pub fn title_str(&self) -> (r: Option<&str>)
        ensures
            match r {
                Some(t) => self.title_text() == Some(t@),
                None => self.title_text().is_none(),
            },
    {
        match &self.title {
            Some(t) => Some(t.as_str()),
            None => None,
        }
    }

    /// The first candidate source URL, if the entry has any.
    pub fn first_url(&self) -> (r: Option<&String>)
        ensures
            r.is_some() == (self.candidate_urls().len() > 0),
            match r {
                Some(u) => self.candidate_urls().len() > 0 && u@ == self.candidate_urls()[0],
                None => true,
            },
    {
        let mut g: usize = 0;
        while g < self.media.len()
            invariant
                g <= self.media@.len(),
                media_urls(self.media@.subrange(0, g as int)).len() == 0,
            decreases self.media@.len() - g,
        {
            let group = &self.media[g];
            let mut k: usize = 0;
            while k < group.sources.len()
                invariant
                    g < self.media@.len(),
                    group == self.media@[g as int],
                    k <= group.sources@.len(),
                    media_urls(self.media@.subrange(0, g as int)).len() == 0,
                    group_urls(group.sources@.subrange(0, k as int)).len() == 0,
                decreases group.sources@.len() - k,
            {
                let ghost upto = group.sources@.subrange(0, k + 1);
                proof {
                    assert(upto.drop_last() =~= group.sources@.subrange(0, k as int));
                    assert(upto.last() == group.sources@[k as int]);
                }
                match &group.sources[k] {
                    Some(u) => {
                        proof {
                            let groups = self.media@.subrange(0, g + 1);
                            assert(group_urls(upto)[0] == u@);
                            lemma_group_prefix(group.sources@, k + 1);
                            assert(groups.drop_last() =~= self.media@.subrange(0, g as int));
                            assert(groups.last() == group);
                            assert(media_urls(groups) =~= group_urls(group.sources@));
                            lemma_media_prefix(self.media@, g + 1);
                        }
                        return Some(u);
                    },
                    None => {},
                }
                k += 1;
            }
            proof {
                let groups = self.media@.subrange(0, g + 1);
                assert(group.sources@.subrange(0, k as int) =~= group.sources@);
                assert(groups.drop_last() =~= self.media@.subrange(0, g as int));
                assert(groups.last() == group);
            }
            g += 1;
        }
        assert(self.media@.subrange(0, g as int) =~= self.media@);
        None
    }

    /// Tells whether any media object holds a content item.
    pub fn has_media(&self) -> (r: bool)
        ensures
            r == self.has_content(),
    {
        let mut g: usize = 0;
        while g < self.media.len()
            invariant
                g <= self.media@.len(),
                forall|j: int| 0 <= j < g ==> (#[trigger] self.media@[j]).sources@.len() == 0,
            decreases self.media@.len() - g,
        {
            if self.media[g].sources.len() > 0 {
                return true;
            }
            g += 1;
        }
        false
    }
}

} // verus!
