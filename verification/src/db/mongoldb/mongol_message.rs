use vstd::prelude::*;

use crate::db::mongol::stages::{fills_by_lookup, stages_view, FieldSetting, PipelineStage, StageView};
use crate::db::mongoldb::mongol_chat::ChatReadError;
use crate::ids::{parse_uuid, parsed_uuid, MongolId};

verus! {

/// The stages after the match of a page of a chat's messages: buckets
/// newest first, `skip` of them skipped and at most `page_size` read (both
/// cut to an `i32` as `as` does), joined with their messages, whose ids are
/// turned into text.
pub open spec fn chat_messages_page_stages(skip: u64, page_size: u64) -> Seq<StageView> {
    seq![
        StageView::SortDescending { field: "date" },
        StageView::Skip { count: skip as i32 },
        StageView::Limit { count: page_size as i32 },
        StageView::Lookup {
            from: "messages",
            local_field: "message_ids",
            foreign_field: "_id",
            as_field: "messages",
        },
        StageView::AddFields {
            fields: seq![
                FieldSetting::KeysToString {
                    target: "messages",
                    source: "$messages",
                    key: "_id",
                    renamed: "id",
                },
            ],
        },
    ]
}

/// The pipeline that reads one page of the messages of a chat, by the
/// chat's id text: the buckets of that chat, newest first. A text that is
/// not a UUID means no such chat.
pub fn chat_messages_page_pipeline(chat_id: &str, skip: u64, page_size: u64) -> (r: Result<
    Vec<PipelineStage>,
    ChatReadError,
>)
    ensures
        match r {
            Ok(p) => parsed_uuid(chat_id@) is Some && stages_view(p@) == seq![
                StageView::MatchId { field: "chat_id", id: MongolId(parsed_uuid(chat_id@)->0) },
            ] + chat_messages_page_stages(skip, page_size),
            Err(e) => parsed_uuid(chat_id@) is None && e is ChatNotFound,
        },
{
    let id = match parse_uuid(chat_id) {
        Some(id) => id,
        None => {
            return Err(ChatReadError::ChatNotFound);
        },
    };
    #[verifier::truncate]
    let skip_count: i32 = skip as i32;
    #[verifier::truncate]
    let limit_count: i32 = page_size as i32;
    let fields = vec![
        FieldSetting::KeysToString {
            target: "messages",
            source: "$messages",
            key: "_id",
            renamed: "id",
        },
    ];
    assert(fields@ =~= seq![
        FieldSetting::KeysToString {
            target: "messages",
            source: "$messages",
            key: "_id",
            renamed: "id",
        },
    ]);
    let p = vec![
        PipelineStage::MatchId { field: "chat_id", id },
        PipelineStage::SortDescending { field: "date" },
        PipelineStage::Skip { count: skip_count },
        PipelineStage::Limit { count: limit_count },
        PipelineStage::Lookup {
            from: "messages",
            local_field: "message_ids",
            foreign_field: "_id",
            as_field: "messages",
        },
        PipelineStage::AddFields { fields },
    ];
    assert(stages_view(p@) =~= seq![StageView::MatchId { field: "chat_id", id }]
        + chat_messages_page_stages(skip, page_size));
    Ok(p)
}

/// A page of a chat's messages reads the chat's buckets newest first by
/// their `date`, skips `skip` of them, reads at most `page_size`, and joins
/// each bucket's messages, from the messages collection, by its
/// `message_ids`.
pub proof fn law_chat_page_reads_newest_buckets_with_their_messages(skip: u64, page_size: u64)
    ensures
        chat_messages_page_stages(skip, page_size)[0] == (StageView::SortDescending { field: "date" }),
        chat_messages_page_stages(skip, page_size)[1] == (StageView::Skip { count: skip as i32 }),
        chat_messages_page_stages(skip, page_size)[2] == (StageView::Limit { count: page_size as i32 }),
        fills_by_lookup(chat_messages_page_stages(skip, page_size), "messages", "messages", "message_ids"),
{
    let s = chat_messages_page_stages(skip, page_size);
    assert(s[3] == (StageView::Lookup {
        from: "messages",
        local_field: "message_ids",
        foreign_field: "_id",
        as_field: "messages",
    }));
}

} // verus!
