use vstd::prelude::*;

verus! {

/// The kind of a notice.
#[derive(Clone, Copy, Debug, PartialEq, Eq, Structural)]
pub enum NoticeType {
    Comment,
}

impl NoticeType {
    /// The wire code the notice store files this kind under.
    pub fn to_i16(&self) -> (v: i16)
        ensures
            *self is Comment ==> v == 1,
    {
        match *self {
            NoticeType::Comment => 1,
        }
    }
}

/// A durable notification row, addressed to the author of the post that was
/// commented on. Only the `read` flag is ever mutated, on delivery.
#[derive(Clone, Copy, Debug, PartialEq, Eq, Structural)]
pub struct Notice {
    pub sender_id: i64,
    pub notice_type: NoticeType,
    /// Id of the object that triggered the notice — here, the new comment.
    pub sender_obj_id: i64,
    pub addressee_id: i64,
    pub read: bool,
}

/// A comment notice as the message listing reads it back.
#[derive(Clone, Copy, Debug, PartialEq, Eq, Structural)]
pub struct NoticeComment {
    pub id: i64,
    pub sender_id: i64,
    pub sender_obj_id: i64,
    pub addressee_id: i64,
    pub read: bool,
}

/// Decides the notification for a fresh comment: none at all when the
/// commenter is the addressee — commenting on one's own post never notifies —
/// and otherwise exactly one unread notice to the parent post's author.
/// Writing the row is the relational store's work and its failure is the
/// caller's to report; the already-committed comment stands either way.
pub fn notify_comment(commenter_id: i64, addressee_id: i64, comment_id: i64) -> (r: Option<Notice>)
    ensures
        commenter_id == addressee_id <==> r is None,
        r matches Some(n) ==> n == (Notice {
            sender_id: commenter_id,
            notice_type: NoticeType::Comment,
            sender_obj_id: comment_id,
            addressee_id,
            read: false,
        }),
{
    if commenter_id == addressee_id {
        None
    } else {
        Some(
            Notice {
                sender_id: commenter_id,
                notice_type: NoticeType::Comment,
                sender_obj_id: comment_id,
                addressee_id,
                read: false,
            },
        )
    }
}

/// The ids of the unread notices in a listing, in listing order.
pub open spec fn unread_ids(s: Seq<NoticeComment>) -> Seq<i64>
    decreases s.len(),
{
    if s.len() == 0 {
        Seq::empty()
    } else {
        unread_ids(s.drop_last()) + (if s.last().read {
            Seq::empty()
        } else {
            seq![s.last().id]
        })
    }
}

/// Passes a loaded page of comment notices through, collecting the ids of
/// the unread ones so the caller can flip their `read` flags on delivery.
pub fn get_comments(notices: Vec<NoticeComment>) -> (r: (Vec<NoticeComment>, Vec<i64>))
    ensures
        r.0 == notices,
        r.1@ == unread_ids(notices@),
{
    let mut unread: Vec<i64> = Vec::new();
    let n = notices.len();
    let mut i: usize = 0;
    while i < n
        invariant
            n == notices@.len(),
            i <= n,
            unread@ == unread_ids(notices@.take(i as int)),
        decreases n - i,
    {
        let notice = notices[i];
        if !notice.read {
            unread.push(notice.id);
        }
        proof {
            let taken = notices@.take((i + 1) as int);
            assert(taken.drop_last() =~= notices@.take(i as int));
            assert(taken.last() == notices@[i as int]);
            assert(unread@ =~= unread_ids(taken));
        }
        i = i + 1;
    }
    proof {
        assert(notices@.take(n as int) =~= notices@);
    }
    (notices, unread)
}

} // verus!
