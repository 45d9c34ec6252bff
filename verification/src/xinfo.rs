//! The stream-information query family: frame assembly for the three
//! query kinds (stream info, groups list, consumers list) and the decoding
//! of their dynamically shaped replies into typed structures, with the
//! variant resolvers that pick a target shape from a value's runtime
//! shape.

use vstd::prelude::*;
use crate::codec::{CommandError, ErrV, ReqV, Request, RespV, Response, req_views, resp_views};
use crate::codec::{lemma_req_views, lemma_resp_views};
use crate::fields::{
    FieldMap, flatten_spec, lemma_upsert_absent, lemma_upsert_found, map_get, opt_int, opt_text,
    parse_response_to_map, req_int, req_text, text_of, text_spec, upsert,
};

verus! {

broadcast use vstd::seq_lib::lemma_seq_skip_of_skip;

/// A raw stream record: the message id and the field/value body, keys
/// unique and in order of first appearance.
#[derive(Debug)]
pub struct RawRecord {
    pub msg_id: String,
    pub body: Vec<(String, String)>,
}

/// The mathematical shape of a [`RawRecord`].
pub struct RawRecordV {
    pub msg_id: Seq<char>,
    pub body: Seq<(Seq<char>, Seq<char>)>,
}

/// The views of a sequence of text pairs, in order.
pub open spec fn text_pair_views(s: Seq<(String, String)>) -> Seq<(Seq<char>, Seq<char>)> {
    Seq::new(s.len(), |i: int| (s[i].0@, s[i].1@))
}

impl View for RawRecord {
    type V = RawRecordV;

    open spec fn view(&self) -> RawRecordV {
        RawRecordV { msg_id: self.msg_id@, body: text_pair_views(self.body@) }
    }
}

/// One consumer of a group as reported inside a detailed stream-info
/// reply.
#[derive(Debug)]
pub struct StreamGroupConsumerInfo {
    pub name: String,
    pub seen_time: i64,
    pub pel_count: i64,
}

/// The mathematical shape of a [`StreamGroupConsumerInfo`].
pub struct ConsumerInfoV {
    pub name: Seq<char>,
    pub seen_time: int,
    pub pel_count: int,
}

impl View for StreamGroupConsumerInfo {
    type V = ConsumerInfoV;

    open spec fn view(&self) -> ConsumerInfoV {
        ConsumerInfoV { name: self.name@, seen_time: self.seen_time as int, pel_count: self.pel_count as int }
    }
}

/// The views of a sequence of consumer records, in order.
pub open spec fn consumer_views(s: Seq<StreamGroupConsumerInfo>) -> Seq<ConsumerInfoV> {
    Seq::new(s.len(), |i: int| s[i]@)
}

/// One consumer group as reported inside a detailed stream-info reply.
#[derive(Debug)]
pub struct StreamGroupInfo {
    pub name: String,
    pub last_delivered_id: String,
    pub entries_read: Option<i64>,
    pub lag: i64,
    pub pel_count: i64,
    pub consumers: Vec<StreamGroupConsumerInfo>,
}

/// The mathematical shape of a [`StreamGroupInfo`].
pub struct GroupInfoV {
    pub name: Seq<char>,
    pub last_delivered_id: Seq<char>,
    pub entries_read: Option<int>,
    pub lag: int,
    pub pel_count: int,
    pub consumers: Seq<ConsumerInfoV>,
}

/// The view of an optional integer field.
pub open spec fn opt_i64_view(o: Option<i64>) -> Option<int> {
    match o {
        Some(n) => Some(n as int),
        None => None,
    }
}

/// The view of an optional textual field.
pub open spec fn opt_string_view(o: Option<String>) -> Option<Seq<char>> {
    match o {
        Some(s) => Some(s@),
        None => None,
    }
}

impl View for StreamGroupInfo {
    type V = GroupInfoV;

    open spec fn view(&self) -> GroupInfoV {
        GroupInfoV {
            name: self.name@,
            last_delivered_id: self.last_delivered_id@,
            entries_read: opt_i64_view(self.entries_read),
            lag: self.lag as int,
            pel_count: self.pel_count as int,
            consumers: consumer_views(self.consumers@),
        }
    }
}

/// The views of a sequence of group records, in order.
pub open spec fn group_views(s: Seq<StreamGroupInfo>) -> Seq<GroupInfoV> {
    Seq::new(s.len(), |i: int| s[i]@)
}

/// The groups field of a stream-info reply: a bare count when the server
/// answers cheaply, or the decoded detail list.
#[derive(Debug)]
pub enum StreamGroupsInfo {
    Simple(i64),
    Full(Vec<StreamGroupInfo>),
}

/// The mathematical shape of a [`StreamGroupsInfo`].
pub enum GroupsInfoV {
    Simple(int),
    Full(Seq<GroupInfoV>),
}

impl View for StreamGroupsInfo {
    type V = GroupsInfoV;

    open spec fn view(&self) -> GroupsInfoV {
        match self {
            StreamGroupsInfo::Simple(n) => GroupsInfoV::Simple(*n as int),
            StreamGroupsInfo::Full(gs) => GroupsInfoV::Full(group_views(gs@)),
        }
    }
}

/// The entries of a stream-info reply: either the two representative
/// records, or the full ordered record list.
#[derive(Debug)]
pub enum StreamEntriesInfo {
    Simple { first: RawRecord, last: RawRecord },
    Full(Vec<RawRecord>),
}

/// The mathematical shape of a [`StreamEntriesInfo`].
pub enum EntriesInfoV {
    Simple { first: RawRecordV, last: RawRecordV },
    Full(Seq<RawRecordV>),
}

/// The views of a sequence of raw records, in order.
pub open spec fn record_views(s: Seq<RawRecord>) -> Seq<RawRecordV> {
    Seq::new(s.len(), |i: int| s[i]@)
}

impl View for StreamEntriesInfo {
    type V = EntriesInfoV;

    open spec fn view(&self) -> EntriesInfoV {
        match self {
            StreamEntriesInfo::Simple { first, last } => EntriesInfoV::Simple {
                first: first@,
                last: last@,
            },
            StreamEntriesInfo::Full(rs) => EntriesInfoV::Full(record_views(rs@)),
        }
    }
}

/// The radix-tree counters of a stream-info reply.
#[derive(Debug)]
pub struct StreamRadixTreeInfo {
    pub keys: i64,
    pub nodes: i64,
}

/// The mathematical shape of a [`StreamRadixTreeInfo`].
pub struct RadixTreeV {
    pub keys: int,
    pub nodes: int,
}

impl View for StreamRadixTreeInfo {
    type V = RadixTreeV;

    open spec fn view(&self) -> RadixTreeV {
        RadixTreeV { keys: self.keys as int, nodes: self.nodes as int }
    }
}

/// The decoded stream-info reply.
#[derive(Debug)]
pub struct XInfoStream {
    pub length: i64,
    pub radix_tree: StreamRadixTreeInfo,
    pub groups: StreamGroupsInfo,
    pub last_generated_id: String,
    pub max_deleted_entry_id: Option<String>,
    pub entries_added: i64,
    pub recorded_first_entry_id: Option<String>,
    pub entries_info: StreamEntriesInfo,
}

/// The mathematical shape of an [`XInfoStream`].
pub struct StreamInfoV {
    pub length: int,
    pub radix_tree: RadixTreeV,
    pub groups: GroupsInfoV,
    pub last_generated_id: Seq<char>,
    pub max_deleted_entry_id: Option<Seq<char>>,
    pub entries_added: int,
    pub recorded_first_entry_id: Option<Seq<char>>,
    pub entries_info: EntriesInfoV,
}

impl View for XInfoStream {
    type V = StreamInfoV;

    open spec fn view(&self) -> StreamInfoV {
        StreamInfoV {
            length: self.length as int,
            radix_tree: self.radix_tree@,
            groups: self.groups@,
            last_generated_id: self.last_generated_id@,
            max_deleted_entry_id: opt_string_view(self.max_deleted_entry_id),
            entries_added: self.entries_added as int,
            recorded_first_entry_id: opt_string_view(self.recorded_first_entry_id),
            entries_info: self.entries_info@,
        }
    }
}

/// One group record of the groups-list query.
#[derive(Debug)]
pub struct XInfoGroup {
    pub name: String,
    pub consumers: i64,
    pub pending: i64,
    pub last_delivered_id: String,
    pub lag: i64,
    pub entries_read: Option<i64>,
}

/// The mathematical shape of an [`XInfoGroup`].
pub struct XInfoGroupV {
    pub name: Seq<char>,
    pub consumers: int,
    pub pending: int,
    pub last_delivered_id: Seq<char>,
    pub lag: int,
    pub entries_read: Option<int>,
}

impl View for XInfoGroup {
    type V = XInfoGroupV;

    open spec fn view(&self) -> XInfoGroupV {
        XInfoGroupV {
            name: self.name@,
            consumers: self.consumers as int,
            pending: self.pending as int,
            last_delivered_id: self.last_delivered_id@,
            lag: self.lag as int,
            entries_read: opt_i64_view(self.entries_read),
        }
    }
}

/// The views of a sequence of groups-list records, in order.
pub open spec fn xinfo_group_views(s: Seq<XInfoGroup>) -> Seq<XInfoGroupV> {
    Seq::new(s.len(), |i: int| s[i]@)
}

/// One consumer record of the consumers-list query.
#[derive(Debug)]
pub struct XInfoConsumer {
    pub name: String,
    pub pending: usize,
    pub idle: usize,
}

/// The mathematical shape of an [`XInfoConsumer`].
pub struct XInfoConsumerV {
    pub name: Seq<char>,
    pub pending: int,
    pub idle: int,
}

impl View for XInfoConsumer {
    type V = XInfoConsumerV;

    open spec fn view(&self) -> XInfoConsumerV {
        XInfoConsumerV { name: self.name@, pending: self.pending as int, idle: self.idle as int }
    }
}

/// The views of a sequence of consumers-list records, in order.
pub open spec fn xinfo_consumer_views(s: Seq<XInfoConsumer>) -> Seq<XInfoConsumerV> {
    Seq::new(s.len(), |i: int| s[i]@)
}

/// The decoded reply of a stream-information query: one of the three
/// result shapes.
#[derive(Debug)]
pub enum XInfoItem {
    Stream(XInfoStream),
    Groups(Vec<XInfoGroup>),
    Consumers(Vec<XInfoConsumer>),
}

/// The mathematical shape of an [`XInfoItem`].
pub enum XInfoItemV {
    Stream(StreamInfoV),
    Groups(Seq<XInfoGroupV>),
    Consumers(Seq<XInfoConsumerV>),
}

impl View for XInfoItem {
    type V = XInfoItemV;

    open spec fn view(&self) -> XInfoItemV {
        match self {
            XInfoItem::Stream(s) => XInfoItemV::Stream(s@),
            XInfoItem::Groups(gs) => XInfoItemV::Groups(xinfo_group_views(gs@)),
            XInfoItem::Consumers(cs) => XInfoItemV::Consumers(xinfo_consumer_views(cs@)),
        }
    }
}

/// What flattening the rest of a record body adds to an accumulated text
/// map: both the key and the value must be string-like; a trailing key
/// with no value is checked and then dropped.
pub open spec fn body_from(
    items: Seq<RespV>,
    acc: Seq<(Seq<char>, Seq<char>)>,
) -> Result<Seq<(Seq<char>, Seq<char>)>, ErrV>
    decreases items.len(),
{
    if items.len() == 0 {
        Ok(acc)
    } else {
        match text_spec(items[0]) {
            Err(e) => Err(e),
            Ok(k) => if items.len() == 1 {
                Ok(acc)
            } else {
                match text_spec(items[1]) {
                    Err(e) => Err(e),
                    Ok(v) => body_from(items.skip(2), upsert(acc, k, v)),
                }
            },
        }
    }
}

/// What decoding a record body yields: a flattened text map from an
/// alternating key/value array, a decode error for any other shape.
pub open spec fn body_spec(v: RespV) -> Result<Seq<(Seq<char>, Seq<char>)>, ErrV> {
    match v {
        RespV::Array(items) => body_from(items, Seq::empty()),
        _ => Err(ErrV::Output("Unexpected Value Type, Want array"@, v)),
    }
}

/// What decoding a raw record yields: an array whose first element is the
/// string-like message id and whose second is the body map.
pub open spec fn raw_record_spec(v: RespV) -> Result<RawRecordV, ErrV> {
    match v {
        RespV::Array(items) => if items.len() < 2 {
            Err(ErrV::Output("Unexpected Value Type, Want id and body pair"@, v))
        } else {
            match text_spec(items[0]) {
                Err(e) => Err(e),
                Ok(id) => match body_spec(items[1]) {
                    Err(e) => Err(e),
                    Ok(b) => Ok(RawRecordV { msg_id: id, body: b }),
                },
            }
        },
        _ => Err(ErrV::Output("Unexpected Value Type, Want array"@, v)),
    }
}

/// What decoding an ordered list of raw records yields: each element
/// decoded in turn, the first failure ending the list.
pub open spec fn records_list_spec(s: Seq<RespV>) -> Result<Seq<RawRecordV>, ErrV>
    decreases s.len(),
{
    if s.len() == 0 {
        Ok(Seq::empty())
    } else {
        match raw_record_spec(s[0]) {
            Err(e) => Err(e),
            Ok(x) => match records_list_spec(s.skip(1)) {
                Err(e) => Err(e),
                Ok(r) => Ok(seq![x] + r),
            },
        }
    }
}

/// What decoding one group consumer record yields.
pub open spec fn consumer_info_spec(v: RespV) -> Result<ConsumerInfoV, ErrV> {
    match v {
        RespV::Array(items) => match flatten_spec(items) {
            Err(e) => Err(e),
            Ok(m) => match req_text(m, "name"@) {
                Err(e) => Err(e),
                Ok(name) => match req_int(m, "seen-time"@) {
                    Err(e) => Err(e),
                    Ok(seen_time) => match req_int(m, "pel-count"@) {
                        Err(e) => Err(e),
                        Ok(pel_count) => Ok(ConsumerInfoV { name, seen_time, pel_count }),
                    },
                },
            },
        },
        _ => Err(ErrV::Output("Unexpected Value Type, Want array"@, v)),
    }
}

/// What decoding an ordered list of group consumer records yields.
pub open spec fn consumers_list_spec(s: Seq<RespV>) -> Result<Seq<ConsumerInfoV>, ErrV>
    decreases s.len(),
{
    if s.len() == 0 {
        Ok(Seq::empty())
    } else {
        match consumer_info_spec(s[0]) {
            Err(e) => Err(e),
            Ok(x) => match consumers_list_spec(s.skip(1)) {
                Err(e) => Err(e),
                Ok(r) => Ok(seq![x] + r),
            },
        }
    }
}

/// What the required consumers field of a group record yields: its list,
/// a missing-field error when absent, a decode error when not an array.
pub open spec fn consumers_field_spec(m: Seq<(Seq<char>, RespV)>) -> Result<
    Seq<ConsumerInfoV>,
    ErrV,
> {
    match map_get(m, "consumers"@) {
        None => Err(ErrV::MissingField("consumers"@)),
        Some(v) => match v {
            RespV::Array(items) => consumers_list_spec(items),
            _ => Err(ErrV::Output("Unexpected Value Type, Want array"@, v)),
        },
    }
}

/// What decoding one detailed group record yields.
pub open spec fn group_info_spec(v: RespV) -> Result<GroupInfoV, ErrV> {
    match v {
        RespV::Array(items) => match flatten_spec(items) {
            Err(e) => Err(e),
            Ok(m) => match req_text(m, "name"@) {
                Err(e) => Err(e),
                Ok(name) => match req_text(m, "last-delivered-id"@) {
                    Err(e) => Err(e),
                    Ok(last_delivered_id) => match req_int(m, "lag"@) {
                        Err(e) => Err(e),
                        Ok(lag) => match req_int(m, "pel-count"@) {
                            Err(e) => Err(e),
                            Ok(pel_count) => match consumers_field_spec(m) {
                                Err(e) => Err(e),
                                Ok(consumers) => Ok(
                                    GroupInfoV {
                                        name,
                                        last_delivered_id,
                                        entries_read: opt_int(m, "entries-read"@),
                                        lag,
                                        pel_count,
                                        consumers,
                                    },
                                ),
                            },
                        },
                    },
                },
            },
        },
        _ => Err(ErrV::Output("Unexpected Value Type, Want array"@, v)),
    }
}

/// What decoding an ordered list of detailed group records yields.
pub open spec fn groups_list_spec(s: Seq<RespV>) -> Result<Seq<GroupInfoV>, ErrV>
    decreases s.len(),
{
    if s.len() == 0 {
        Ok(Seq::empty())
    } else {
        match group_info_spec(s[0]) {
            Err(e) => Err(e),
            Ok(x) => match groups_list_spec(s.skip(1)) {
                Err(e) => Err(e),
                Ok(r) => Ok(seq![x] + r),
            },
        }
    }
}

/// The groups-field resolver: a bare integer yields the cheap count, an
/// array yields the recursively decoded detail list, any other shape is a
/// decode error.
pub open spec fn groups_info_spec(v: RespV) -> Result<GroupsInfoV, ErrV> {
    match v {
        RespV::Integer(n) => Ok(GroupsInfoV::Simple(n)),
        RespV::Array(items) => match groups_list_spec(items) {
            Err(e) => Err(e),
            Ok(gs) => Ok(GroupsInfoV::Full(gs)),
        },
        _ => Err(ErrV::Output("Unexpected Value Type, Want i64 or array"@, v)),
    }
}

/// The entries-view resolver: an `entries` key yields the full record
/// list; otherwise both `first-entry` and `last-entry` are required and
/// yield the representative pair; absence of both forms is an error.
pub open spec fn entries_info_spec(m: Seq<(Seq<char>, RespV)>) -> Result<EntriesInfoV, ErrV> {
    match map_get(m, "entries"@) {
        Some(v) => match v {
            RespV::Array(items) => match records_list_spec(items) {
                Err(e) => Err(e),
                Ok(rs) => Ok(EntriesInfoV::Full(rs)),
            },
            _ => Err(ErrV::Output("Unexpected Value Type, Want array"@, v)),
        },
        None => match map_get(m, "first-entry"@) {
            None => Err(ErrV::MissingField("first-entry"@)),
            Some(f) => match raw_record_spec(f) {
                Err(e) => Err(e),
                Ok(first) => match map_get(m, "last-entry"@) {
                    None => Err(ErrV::MissingField("last-entry"@)),
                    Some(l) => match raw_record_spec(l) {
                        Err(e) => Err(e),
                        Ok(last) => Ok(EntriesInfoV::Simple { first, last }),
                    },
                },
            },
        },
    }
}

/// What decoding the radix-tree counters of a flattened stream map yields.
pub open spec fn radix_tree_spec(m: Seq<(Seq<char>, RespV)>) -> Result<RadixTreeV, ErrV> {
    match req_int(m, "radix-tree-keys"@) {
        Err(e) => Err(e),
        Ok(keys) => match req_int(m, "radix-tree-nodes"@) {
            Err(e) => Err(e),
            Ok(nodes) => Ok(RadixTreeV { keys, nodes }),
        },
    }
}

/// What decoding a flattened stream-info reply yields: every required
/// field extracted, the optional ids read when present and string-like,
/// the groups and entries fields resolved by runtime shape.
pub open spec fn stream_info_spec(items: Seq<RespV>) -> Result<StreamInfoV, ErrV> {
    match flatten_spec(items) {
        Err(e) => Err(e),
        Ok(m) => match req_int(m, "length"@) {
            Err(e) => Err(e),
            Ok(length) => match req_text(m, "last-generated-id"@) {
                Err(e) => Err(e),
                Ok(last_generated_id) => match req_int(m, "entries-added"@) {
                    Err(e) => Err(e),
                    Ok(entries_added) => match map_get(m, "groups"@) {
                        None => Err(ErrV::MissingField("groups"@)),
                        Some(g) => match groups_info_spec(g) {
                            Err(e) => Err(e),
                            Ok(groups) => match entries_info_spec(m) {
                                Err(e) => Err(e),
                                Ok(entries_info) => match radix_tree_spec(m) {
                                    Err(e) => Err(e),
                                    Ok(radix_tree) => Ok(
                                        StreamInfoV {
                                            length,
                                            radix_tree,
                                            groups,
                                            last_generated_id,
                                            max_deleted_entry_id: opt_text(
                                                m,
                                                "max-deleted-entry-id"@,
                                            ),
                                            entries_added,
                                            recorded_first_entry_id: opt_text(
                                                m,
                                                "recorded-first-entry-id"@,
                                            ),
                                            entries_info,
                                        },
                                    ),
                                },
                            },
                        },
                    },
                },
            },
        },
    }
}

/// What decoding one groups-list record yields.
pub open spec fn xinfo_group_spec(v: RespV) -> Result<XInfoGroupV, ErrV> {
    match v {
        RespV::Array(items) => match flatten_spec(items) {
            Err(e) => Err(e),
            Ok(m) => match req_text(m, "name"@) {
                Err(e) => Err(e),
                Ok(name) => match req_int(m, "consumers"@) {
                    Err(e) => Err(e),
                    Ok(consumers) => match req_int(m, "pending"@) {
                        Err(e) => Err(e),
                        Ok(pending) => match req_text(m, "last-delivered-id"@) {
                            Err(e) => Err(e),
                            Ok(last_delivered_id) => match req_int(m, "lag"@) {
                                Err(e) => Err(e),
                                Ok(lag) => Ok(
                                    XInfoGroupV {
                                        name,
                                        consumers,
                                        pending,
                                        last_delivered_id,
                                        lag,
                                        entries_read: opt_int(m, "entries-read"@),
                                    },
                                ),
                            },
                        },
                    },
                },
            },
        },
        _ => Err(ErrV::Output("Unexpected Value Type, Want array"@, v)),
    }
}

/// What decoding an ordered list of groups-list records yields.
pub open spec fn xinfo_groups_list_spec(s: Seq<RespV>) -> Result<Seq<XInfoGroupV>, ErrV>
    decreases s.len(),
{
    if s.len() == 0 {
        Ok(Seq::empty())
    } else {
        match xinfo_group_spec(s[0]) {
            Err(e) => Err(e),
            Ok(x) => match xinfo_groups_list_spec(s.skip(1)) {
                Err(e) => Err(e),
                Ok(r) => Ok(seq![x] + r),
            },
        }
    }
}

/// A non-negative integer that fits the machine word, as a consumers-list
/// count must.
pub open spec fn usize_field_spec(n: int) -> Result<int, ErrV> {
    if 0 <= n <= usize::MAX as int {
        Ok(n)
    } else {
        Err(ErrV::Output("Unexpected Value Type, Want usize"@, RespV::Integer(n)))
    }
}

/// What decoding one consumers-list record yields.
pub open spec fn xinfo_consumer_spec(v: RespV) -> Result<XInfoConsumerV, ErrV> {
    match v {
        RespV::Array(items) => match flatten_spec(items) {
            Err(e) => Err(e),
            Ok(m) => match req_text(m, "name"@) {
                Err(e) => Err(e),
                Ok(name) => match req_int(m, "pending"@) {
                    Err(e) => Err(e),
                    Ok(p) => match usize_field_spec(p) {
                        Err(e) => Err(e),
                        Ok(pending) => match req_int(m, "idle"@) {
                            Err(e) => Err(e),
                            Ok(idl) => match usize_field_spec(idl) {
                                Err(e) => Err(e),
                                Ok(idle) => Ok(XInfoConsumerV { name, pending, idle }),
                            },
                        },
                    },
                },
            },
        },
        _ => Err(ErrV::Output("Unexpected Value Type, Want array"@, v)),
    }
}

/// What decoding an ordered list of consumers-list records yields.
pub open spec fn xinfo_consumers_list_spec(s: Seq<RespV>) -> Result<Seq<XInfoConsumerV>, ErrV>
    decreases s.len(),
{
    if s.len() == 0 {
        Ok(Seq::empty())
    } else {
        match xinfo_consumer_spec(s[0]) {
            Err(e) => Err(e),
            Ok(x) => match xinfo_consumers_list_spec(s.skip(1)) {
                Err(e) => Err(e),
                Ok(r) => Ok(seq![x] + r),
            },
        }
    }
}

/// The top-level reply resolver: an empty reply is an error; a string-like
/// first element marks a flattened stream-info map, an array first element
/// a list of group records; anything else is an error naming the sniffed
/// value.
pub open spec fn parse_response_spec(items: Seq<RespV>) -> Result<XInfoItemV, ErrV> {
    if items.len() == 0 {
        Err(ErrV::Output("Unknown Stream Info Key"@, RespV::Array(items)))
    } else {
        match items[0] {
            RespV::Bytes(_) => match stream_info_spec(items) {
                Err(e) => Err(e),
                Ok(s) => Ok(XInfoItemV::Stream(s)),
            },
            RespV::Array(_) => match xinfo_groups_list_spec(items) {
                Err(e) => Err(e),
                Ok(gs) => Ok(XInfoItemV::Groups(gs)),
            },
            _ => Err(ErrV::Output("Unknown Stream Info Key"@, items[0])),
        }
    }
}

/// What decoding a whole stream-information reply yields: an outer array
/// resolved by its first element, any other shape an error.
pub open spec fn xinfo_output_spec(v: RespV) -> Result<XInfoItemV, ErrV> {
    match v {
        RespV::Array(items) => parse_response_spec(items),
        _ => Err(ErrV::Output("Unexpected Value"@, v)),
    }
}

/// What decoding a consumers-list reply yields: an outer array of
/// consumer records, any other shape an error.
pub open spec fn consumers_response_spec(v: RespV) -> Result<XInfoItemV, ErrV> {
    match v {
        RespV::Array(items) => match xinfo_consumers_list_spec(items) {
            Err(e) => Err(e),
            Ok(cs) => Ok(XInfoItemV::Consumers(cs)),
        },
        _ => Err(ErrV::Output("Unexpected Value"@, v)),
    }
}

/// Binds a key in a record body, last write winning, first-appearance
/// order kept.
fn upsert_pair(m: &mut Vec<(String, String)>, k: String, v: String)
    ensures
        text_pair_views(final(m)@) == upsert(text_pair_views(old(m)@), k@, v@),
{
    let mut i: usize = 0;
    while i < m.len()
        invariant
            i <= m.len(),
            *m == *old(m),
            forall|j: int| 0 <= j < i as int ==> text_pair_views(old(m)@)[j].0 != k@,
        decreases m.len() - i,
    {
        if m[i].0 == k {
            m.remove(i);
            m.insert(i, (k, v));
            proof {
                lemma_upsert_found(text_pair_views(old(m)@), k@, v@, i as int);
                assert(text_pair_views(m@) =~= text_pair_views(old(m)@).update(
                    i as int,
                    (k@, v@),
                ));
            }
            return ;
        }
        i = i + 1;
    }
    m.push((k, v));
    proof {
        lemma_upsert_absent(text_pair_views(old(m)@), k@, v@);
        assert(text_pair_views(m@) =~= text_pair_views(old(m)@).push((k@, v@)));
    }
}

/// Flattens a record body's alternating key/value array into a text map,
/// failing on a key or value that is not string-like.
fn parse_body(items: &Vec<Response>) -> (r: Result<Vec<(String, String)>, CommandError>)
    ensures
        (match r {
            Ok(b) => body_from(resp_views(items@), Seq::empty()) == Ok::<
                Seq<(Seq<char>, Seq<char>)>,
                ErrV,
            >(text_pair_views(b@)),
            Err(e) => body_from(resp_views(items@), Seq::empty()) == Err::<
                Seq<(Seq<char>, Seq<char>)>,
                ErrV,
            >(e@),
        }),
{
    let ghost full = resp_views(items@);
    proof {
        lemma_resp_views(items@);
    }
    let mut out: Vec<(String, String)> = Vec::new();
    proof {
        assert(full.skip(0) =~= full);
        assert(text_pair_views(out@) =~= Seq::<(Seq<char>, Seq<char>)>::empty());
    }
    let mut i: usize = 0;
    while i < items.len()
        invariant
            i <= items.len(),
            full == resp_views(items@),
            full.len() == items@.len(),
            forall|j: int| 0 <= j < items@.len() ==> full[j] == items@[j]@,
            body_from(full.skip(i as int), text_pair_views(out@)) == body_from(full, Seq::empty()),
        decreases items.len() - i,
    {
        proof {
            assert(full.skip(i as int)[0] == full[i as int]);
        }
        let key = match text_of(&items[i]) {
            Ok(k) => k,
            Err(e) => {
                return Err(e);
            },
        };
        if i + 1 < items.len() {
            proof {
                assert(full.skip(i as int)[1] == full[i as int + 1]);
                assert(full.skip(i as int).skip(2) =~= full.skip(i as int + 2));
            }
            let value = match text_of(&items[i + 1]) {
                Ok(v) => v,
                Err(e) => {
                    return Err(e);
                },
            };
            upsert_pair(&mut out, key, value);
            i = i + 2;
        } else {
            proof {
                assert(full.skip(i as int).len() == 1);
            }
            return Ok(out);
        }
    }
    proof {
        assert(full.skip(i as int).len() == 0);
    }
    Ok(out)
}

impl RawRecord {
    /// Decodes a raw record: an array of the string-like message id and
    /// the flattened body map.
    pub fn try_from(resp: Response) -> (r: Result<RawRecord, CommandError>)
        ensures
            (match r {
                Ok(rec) => raw_record_spec(resp@) == Ok::<RawRecordV, ErrV>(rec@),
                Err(e) => raw_record_spec(resp@) == Err::<RawRecordV, ErrV>(e@),
            }),
    {
        match resp {
            Response::Array(data) => {
                proof {
                    lemma_resp_views(data@);
                }
                if data.len() < 2 {
                    return Err(
                        CommandError::Output(
                            "Unexpected Value Type, Want id and body pair".to_string(),
                            Response::Array(data),
                        ),
                    );
                }
                let msg_id = match text_of(&data[0]) {
                    Ok(s) => s,
                    Err(e) => {
                        return Err(e);
                    },
                };
                let body = match &data[1] {
                    Response::Array(bitems) => match parse_body(bitems) {
                        Ok(b) => b,
                        Err(e) => {
                            return Err(e);
                        },
                    },
                    _ => {
                        return Err(
                            CommandError::Output(
                                "Unexpected Value Type, Want array".to_string(),
                                data[1].clone(),
                            ),
                        );
                    },
                };
                Ok(RawRecord { msg_id, body })
            },
            _ => Err(CommandError::Output("Unexpected Value Type, Want array".to_string(), resp)),
        }
    }
}

/// Decodes an ordered list of raw records, stopping at the first failure.
fn records_list(items: &Vec<Response>) -> (r: Result<Vec<RawRecord>, CommandError>)
    ensures
        (match r {
            Ok(l) => records_list_spec(resp_views(items@)) == Ok::<Seq<RawRecordV>, ErrV>(
                record_views(l@),
            ),
            Err(e) => records_list_spec(resp_views(items@)) == Err::<Seq<RawRecordV>, ErrV>(e@),
        }),
{
    let ghost full = resp_views(items@);
    proof {
        lemma_resp_views(items@);
    }
    let mut out: Vec<RawRecord> = Vec::new();
    proof {
        assert(full.skip(0) =~= full);
        let s0 = records_list_spec(full);
        if s0 is Ok {
            assert(record_views(out@) + s0->Ok_0 =~= s0->Ok_0);
        }
    }
    let mut i: usize = 0;
    while i < items.len()
        invariant
            i <= items.len(),
            full == resp_views(items@),
            full.len() == items@.len(),
            forall|j: int| 0 <= j < items@.len() ==> full[j] == items@[j]@,
            out@.len() == i as int,
            records_list_spec(full) == (match records_list_spec(full.skip(i as int)) {
                Ok(rest) => Ok::<Seq<RawRecordV>, ErrV>(record_views(out@) + rest),
                Err(e) => Err::<Seq<RawRecordV>, ErrV>(e),
            }),
        decreases items.len() - i,
    {
        let ghost pre = record_views(out@);
        proof {
            assert(full.skip(i as int)[0] == full[i as int]);
            assert(full.skip(i as int).skip(1) =~= full.skip(i as int + 1));
        }
        let rec = match RawRecord::try_from(items[i].clone()) {
            Ok(rec) => rec,
            Err(e) => {
                return Err(e);
            },
        };
        out.push(rec);
        i = i + 1;
        proof {
            assert(record_views(out@) =~= pre.push(out@[i as int - 1]@));
            let s_next = records_list_spec(full.skip(i as int));
            if s_next is Ok {
                let rest = s_next->Ok_0;
                assert(pre.push(out@[i as int - 1]@) + rest =~= pre + (seq![out@[i as int - 1]@]
                    + rest));
            }
        }
    }
    proof {
        assert(full.skip(i as int).len() == 0);
        assert(record_views(out@) + Seq::<RawRecordV>::empty() =~= record_views(out@));
    }
    Ok(out)
}

impl StreamGroupConsumerInfo {
    /// Decodes one consumer record of a detailed group.
    pub fn try_from(resp: Response) -> (r: Result<StreamGroupConsumerInfo, CommandError>)
        ensures
            (match r {
                Ok(c) => consumer_info_spec(resp@) == Ok::<ConsumerInfoV, ErrV>(c@),
                Err(e) => consumer_info_spec(resp@) == Err::<ConsumerInfoV, ErrV>(e@),
            }),
    {
        match resp {
            Response::Array(items) => {
                let m = match parse_response_to_map(&items) {
                    Ok(m) => m,
                    Err(e) => {
                        return Err(e);
                    },
                };
                let name = match m.get_text("name") {
                    Ok(v) => v,
                    Err(e) => {
                        return Err(e);
                    },
                };
                let seen_time = match m.get_int("seen-time") {
                    Ok(v) => v,
                    Err(e) => {
                        return Err(e);
                    },
                };
                let pel_count = match m.get_int("pel-count") {
                    Ok(v) => v,
                    Err(e) => {
                        return Err(e);
                    },
                };
                Ok(StreamGroupConsumerInfo { name, seen_time, pel_count })
            },
            _ => Err(CommandError::Output("Unexpected Value Type, Want array".to_string(), resp)),
        }
    }
}

/// Decodes an ordered list of group consumer records.
fn consumers_list(items: &Vec<Response>) -> (r: Result<Vec<StreamGroupConsumerInfo>, CommandError>)
    ensures
        (match r {
            Ok(l) => consumers_list_spec(resp_views(items@)) == Ok::<Seq<ConsumerInfoV>, ErrV>(
                consumer_views(l@),
            ),
            Err(e) => consumers_list_spec(resp_views(items@)) == Err::<Seq<ConsumerInfoV>, ErrV>(
                e@,
            ),
        }),
{
    let ghost full = resp_views(items@);
    proof {
        lemma_resp_views(items@);
    }
    let mut out: Vec<StreamGroupConsumerInfo> = Vec::new();
    proof {
        assert(full.skip(0) =~= full);
        let s0 = consumers_list_spec(full);
        if s0 is Ok {
            assert(consumer_views(out@) + s0->Ok_0 =~= s0->Ok_0);
        }
    }
    let mut i: usize = 0;
    while i < items.len()
        invariant
            i <= items.len(),
            full == resp_views(items@),
            full.len() == items@.len(),
            forall|j: int| 0 <= j < items@.len() ==> full[j] == items@[j]@,
            out@.len() == i as int,
            consumers_list_spec(full) == (match consumers_list_spec(full.skip(i as int)) {
                Ok(rest) => Ok::<Seq<ConsumerInfoV>, ErrV>(consumer_views(out@) + rest),
                Err(e) => Err::<Seq<ConsumerInfoV>, ErrV>(e),
            }),
        decreases items.len() - i,
    {
        let ghost pre = consumer_views(out@);
        proof {
            assert(full.skip(i as int)[0] == full[i as int]);
            assert(full.skip(i as int).skip(1) =~= full.skip(i as int + 1));
        }
        let c = match StreamGroupConsumerInfo::try_from(items[i].clone()) {
            Ok(c) => c,
            Err(e) => {
                return Err(e);
            },
        };
        out.push(c);
        i = i + 1;
        proof {
            assert(consumer_views(out@) =~= pre.push(out@[i as int - 1]@));
            let s_next = consumers_list_spec(full.skip(i as int));
            if s_next is Ok {
                let rest = s_next->Ok_0;
                assert(pre.push(out@[i as int - 1]@) + rest =~= pre + (seq![out@[i as int - 1]@]
                    + rest));
            }
        }
    }
    proof {
        assert(full.skip(i as int).len() == 0);
        assert(consumer_views(out@) + Seq::<ConsumerInfoV>::empty() =~= consumer_views(out@));
    }
    Ok(out)
}

impl StreamGroupInfo {
    /// Decodes one detailed group record of a stream-info reply.
    pub fn try_from(resp: Response) -> (r: Result<StreamGroupInfo, CommandError>)
        ensures
            (match r {
                Ok(g) => group_info_spec(resp@) == Ok::<GroupInfoV, ErrV>(g@),
                Err(e) => group_info_spec(resp@) == Err::<GroupInfoV, ErrV>(e@),
            }),
    {
        match resp {
            Response::Array(items) => {
                let m = match parse_response_to_map(&items) {
                    Ok(m) => m,
                    Err(e) => {
                        return Err(e);
                    },
                };
                let name = match m.get_text("name") {
                    Ok(v) => v,
                    Err(e) => {
                        return Err(e);
                    },
                };
                let last_delivered_id = match m.get_text("last-delivered-id") {
                    Ok(v) => v,
                    Err(e) => {
                        return Err(e);
                    },
                };
                let lag = match m.get_int("lag") {
                    Ok(v) => v,
                    Err(e) => {
                        return Err(e);
                    },
                };
                let pel_count = match m.get_int("pel-count") {
                    Ok(v) => v,
                    Err(e) => {
                        return Err(e);
                    },
                };
                let consumers = match m.get("consumers") {
                    Some(v) => match v {
                        Response::Array(citems) => match consumers_list(citems) {
                            Ok(cs) => cs,
                            Err(e) => {
                                return Err(e);
                            },
                        },
                        _ => {
                            return Err(
                                CommandError::Output(
                                    "Unexpected Value Type, Want array".to_string(),
                                    v.clone(),
                                ),
                            );
                        },
                    },
                    None => {
                        return Err(CommandError::MissingField("consumers".to_string()));
                    },
                };
                let entries_read = m.get_opt_int("entries-read");
                Ok(
                    StreamGroupInfo {
                        name,
                        last_delivered_id,
                        entries_read,
                        lag,
                        pel_count,
                        consumers,
                    },
                )
            },
            _ => Err(CommandError::Output("Unexpected Value Type, Want array".to_string(), resp)),
        }
    }
}

/// Decodes an ordered list of detailed group records.
fn groups_list(items: &Vec<Response>) -> (r: Result<Vec<StreamGroupInfo>, CommandError>)
    ensures
        (match r {
            Ok(l) => groups_list_spec(resp_views(items@)) == Ok::<Seq<GroupInfoV>, ErrV>(
                group_views(l@),
            ),
            Err(e) => groups_list_spec(resp_views(items@)) == Err::<Seq<GroupInfoV>, ErrV>(e@),
        }),
{
    let ghost full = resp_views(items@);
    proof {
        lemma_resp_views(items@);
    }
    let mut out: Vec<StreamGroupInfo> = Vec::new();
    proof {
        assert(full.skip(0) =~= full);
        let s0 = groups_list_spec(full);
        if s0 is Ok {
            assert(group_views(out@) + s0->Ok_0 =~= s0->Ok_0);
        }
    }
    let mut i: usize = 0;
    while i < items.len()
        invariant
            i <= items.len(),
            full == resp_views(items@),
            full.len() == items@.len(),
            forall|j: int| 0 <= j < items@.len() ==> full[j] == items@[j]@,
            out@.len() == i as int,
            groups_list_spec(full) == (match groups_list_spec(full.skip(i as int)) {
                Ok(rest) => Ok::<Seq<GroupInfoV>, ErrV>(group_views(out@) + rest),
                Err(e) => Err::<Seq<GroupInfoV>, ErrV>(e),
            }),
        decreases items.len() - i,
    {
        let ghost pre = group_views(out@);
        proof {
            assert(full.skip(i as int)[0] == full[i as int]);
            assert(full.skip(i as int).skip(1) =~= full.skip(i as int + 1));
        }
        let g = match StreamGroupInfo::try_from(items[i].clone()) {
            Ok(g) => g,
            Err(e) => {
                return Err(e);
            },
        };
        out.push(g);
        i = i + 1;
        proof {
            assert(group_views(out@) =~= pre.push(out@[i as int - 1]@));
            let s_next = groups_list_spec(full.skip(i as int));
            if s_next is Ok {
                let rest = s_next->Ok_0;
                assert(pre.push(out@[i as int - 1]@) + rest =~= pre + (seq![out@[i as int - 1]@]
                    + rest));
            }
        }
    }
    proof {
        assert(full.skip(i as int).len() == 0);
        assert(group_views(out@) + Seq::<GroupInfoV>::empty() =~= group_views(out@));
    }
    Ok(out)
}

impl StreamGroupsInfo {
    /// The groups-field resolver: an integer becomes the cheap count, an
    /// array the decoded detail list, any other shape a decode error.
    pub fn try_from(resp: Response) -> (r: Result<StreamGroupsInfo, CommandError>)
        ensures
            (match r {
                Ok(g) => groups_info_spec(resp@) == Ok::<GroupsInfoV, ErrV>(g@),
                Err(e) => groups_info_spec(resp@) == Err::<GroupsInfoV, ErrV>(e@),
            }),
    {
        match resp {
            Response::Integer(count) => Ok(StreamGroupsInfo::Simple(count)),
            Response::Array(items) => match groups_list(&items) {
                Ok(gs) => Ok(StreamGroupsInfo::Full(gs)),
                Err(e) => Err(e),
            },
            _ => Err(
                CommandError::Output("Unexpected Value Type, Want i64 or array".to_string(), resp),
            ),
        }
    }
}

impl StreamRadixTreeInfo {
    /// Decodes the radix-tree counters of a flattened stream map.
    pub fn try_from(src: FieldMap) -> (r: Result<StreamRadixTreeInfo, CommandError>)
        ensures
            (match r {
                Ok(rt) => radix_tree_spec(src@) == Ok::<RadixTreeV, ErrV>(rt@),
                Err(e) => radix_tree_spec(src@) == Err::<RadixTreeV, ErrV>(e@),
            }),
    {
        let keys = match src.get_int("radix-tree-keys") {
            Ok(v) => v,
            Err(e) => {
                return Err(e);
            },
        };
        let nodes = match src.get_int("radix-tree-nodes") {
            Ok(v) => v,
            Err(e) => {
                return Err(e);
            },
        };
        Ok(StreamRadixTreeInfo { keys, nodes })
    }
}

impl XInfoGroup {
    /// Decodes one record of the groups-list query.
    pub fn try_from(resp: Response) -> (r: Result<XInfoGroup, CommandError>)
        ensures
            (match r {
                Ok(g) => xinfo_group_spec(resp@) == Ok::<XInfoGroupV, ErrV>(g@),
                Err(e) => xinfo_group_spec(resp@) == Err::<XInfoGroupV, ErrV>(e@),
            }),
    {
        match resp {
            Response::Array(items) => {
                let m = match parse_response_to_map(&items) {
                    Ok(m) => m,
                    Err(e) => {
                        return Err(e);
                    },
                };
                let name = match m.get_text("name") {
                    Ok(v) => v,
                    Err(e) => {
                        return Err(e);
                    },
                };
                let consumers = match m.get_int("consumers") {
                    Ok(v) => v,
                    Err(e) => {
                        return Err(e);
                    },
                };
                let pending = match m.get_int("pending") {
                    Ok(v) => v,
                    Err(e) => {
                        return Err(e);
                    },
                };
                let last_delivered_id = match m.get_text("last-delivered-id") {
                    Ok(v) => v,
                    Err(e) => {
                        return Err(e);
                    },
                };
                let lag = match m.get_int("lag") {
                    Ok(v) => v,
                    Err(e) => {
                        return Err(e);
                    },
                };
                let entries_read = m.get_opt_int("entries-read");
                Ok(XInfoGroup { name, consumers, pending, last_delivered_id, lag, entries_read })
            },
            _ => Err(CommandError::Output("Unexpected Value Type, Want array".to_string(), resp)),
        }
    }
}

/// Decodes an ordered list of groups-list records.
fn xinfo_groups_list(items: &Vec<Response>) -> (r: Result<Vec<XInfoGroup>, CommandError>)
    ensures
        (match r {
            Ok(l) => xinfo_groups_list_spec(resp_views(items@)) == Ok::<Seq<XInfoGroupV>, ErrV>(
                xinfo_group_views(l@),
            ),
            Err(e) => xinfo_groups_list_spec(resp_views(items@)) == Err::<Seq<XInfoGroupV>, ErrV>(
                e@,
            ),
        }),
{
    let ghost full = resp_views(items@);
    proof {
        lemma_resp_views(items@);
    }
    let mut out: Vec<XInfoGroup> = Vec::new();
    proof {
        assert(full.skip(0) =~= full);
        let s0 = xinfo_groups_list_spec(full);
        if s0 is Ok {
            assert(xinfo_group_views(out@) + s0->Ok_0 =~= s0->Ok_0);
        }
    }
    let mut i: usize = 0;
    while i < items.len()
        invariant
            i <= items.len(),
            full == resp_views(items@),
            full.len() == items@.len(),
            forall|j: int| 0 <= j < items@.len() ==> full[j] == items@[j]@,
            out@.len() == i as int,
            xinfo_groups_list_spec(full) == (match xinfo_groups_list_spec(full.skip(i as int)) {
                Ok(rest) => Ok::<Seq<XInfoGroupV>, ErrV>(xinfo_group_views(out@) + rest),
                Err(e) => Err::<Seq<XInfoGroupV>, ErrV>(e),
            }),
        decreases items.len() - i,
    {
        let ghost pre = xinfo_group_views(out@);
        proof {
            assert(full.skip(i as int)[0] == full[i as int]);
            assert(full.skip(i as int).skip(1) =~= full.skip(i as int + 1));
        }
        let g = match XInfoGroup::try_from(items[i].clone()) {
            Ok(g) => g,
            Err(e) => {
                return Err(e);
            },
        };
        out.push(g);
        i = i + 1;
        proof {
            assert(xinfo_group_views(out@) =~= pre.push(out@[i as int - 1]@));
            let s_next = xinfo_groups_list_spec(full.skip(i as int));
            if s_next is Ok {
                let rest = s_next->Ok_0;
                assert(pre.push(out@[i as int - 1]@) + rest =~= pre + (seq![out@[i as int - 1]@]
                    + rest));
            }
        }
    }
    proof {
        assert(full.skip(i as int).len() == 0);
        assert(xinfo_group_views(out@) + Seq::<XInfoGroupV>::empty() =~= xinfo_group_views(out@));
    }
    Ok(out)
}

impl XInfoConsumer {
    /// Decodes one record of the consumers-list query; the two counters
    /// must fit the machine word.
    pub fn try_from(resp: Response) -> (r: Result<XInfoConsumer, CommandError>)
        ensures
            (match r {
                Ok(c) => xinfo_consumer_spec(resp@) == Ok::<XInfoConsumerV, ErrV>(c@),
                Err(e) => xinfo_consumer_spec(resp@) == Err::<XInfoConsumerV, ErrV>(e@),
            }),
    {
        match resp {
            Response::Array(items) => {
                let m = match parse_response_to_map(&items) {
                    Ok(m) => m,
                    Err(e) => {
                        return Err(e);
                    },
                };
                let name = match m.get_text("name") {
                    Ok(v) => v,
                    Err(e) => {
                        return Err(e);
                    },
                };
                let p = match m.get_int("pending") {
                    Ok(v) => v,
                    Err(e) => {
                        return Err(e);
                    },
                };
                if p < 0 || (p as u64) > (usize::MAX as u64) {
                    return Err(
                        CommandError::Output(
                            "Unexpected Value Type, Want usize".to_string(),
                            Response::Integer(p),
                        ),
                    );
                }
                let pending = p as usize;
                let idl = match m.get_int("idle") {
                    Ok(v) => v,
                    Err(e) => {
                        return Err(e);
                    },
                };
                if idl < 0 || (idl as u64) > (usize::MAX as u64) {
                    return Err(
                        CommandError::Output(
                            "Unexpected Value Type, Want usize".to_string(),
                            Response::Integer(idl),
                        ),
                    );
                }
                let idle = idl as usize;
                Ok(XInfoConsumer { name, pending, idle })
            },
            _ => Err(CommandError::Output("Unexpected Value Type, Want array".to_string(), resp)),
        }
    }
}

/// Decodes an ordered list of consumers-list records.
fn xinfo_consumers_list(items: &Vec<Response>) -> (r: Result<Vec<XInfoConsumer>, CommandError>)
    ensures
        (match r {
            Ok(l) => xinfo_consumers_list_spec(resp_views(items@)) == Ok::<
                Seq<XInfoConsumerV>,
                ErrV,
            >(xinfo_consumer_views(l@)),
            Err(e) => xinfo_consumers_list_spec(resp_views(items@)) == Err::<
                Seq<XInfoConsumerV>,
                ErrV,
            >(e@),
        }),
{
    let ghost full = resp_views(items@);
    proof {
        lemma_resp_views(items@);
    }
    let mut out: Vec<XInfoConsumer> = Vec::new();
    proof {
        assert(full.skip(0) =~= full);
        let s0 = xinfo_consumers_list_spec(full);
        if s0 is Ok {
            assert(xinfo_consumer_views(out@) + s0->Ok_0 =~= s0->Ok_0);
        }
    }
    let mut i: usize = 0;
    while i < items.len()
        invariant
            i <= items.len(),
            full == resp_views(items@),
            full.len() == items@.len(),
            forall|j: int| 0 <= j < items@.len() ==> full[j] == items@[j]@,
            out@.len() == i as int,
            xinfo_consumers_list_spec(full) == (match xinfo_consumers_list_spec(
                full.skip(i as int),
            ) {
                Ok(rest) => Ok::<Seq<XInfoConsumerV>, ErrV>(xinfo_consumer_views(out@) + rest),
                Err(e) => Err::<Seq<XInfoConsumerV>, ErrV>(e),
            }),
        decreases items.len() - i,
    {
        let ghost pre = xinfo_consumer_views(out@);
        proof {
            assert(full.skip(i as int)[0] == full[i as int]);
            assert(full.skip(i as int).skip(1) =~= full.skip(i as int + 1));
        }
        let c = match XInfoConsumer::try_from(items[i].clone()) {
            Ok(c) => c,
            Err(e) => {
                return Err(e);
            },
        };
        out.push(c);
        i = i + 1;
        proof {
            assert(xinfo_consumer_views(out@) =~= pre.push(out@[i as int - 1]@));
            let s_next = xinfo_consumers_list_spec(full.skip(i as int));
            if s_next is Ok {
                let rest = s_next->Ok_0;
                assert(pre.push(out@[i as int - 1]@) + rest =~= pre + (seq![out@[i as int - 1]@]
                    + rest));
            }
        }
    }
    proof {
        assert(full.skip(i as int).len() == 0);
        assert(xinfo_consumer_views(out@) + Seq::<XInfoConsumerV>::empty() =~= xinfo_consumer_views(
            out@,
        ));
    }
    Ok(out)
}

/// The three stream-information query kinds, mutually exclusive and
/// selected at construction.
#[derive(Debug)]
pub enum XInfoType {
    Stream(Option<usize>),
    Groups,
    Consumers(String),
}

/// The mathematical shape of an [`XInfoType`].
pub enum XInfoTypeV {
    Stream(Option<int>),
    Groups,
    Consumers(Seq<char>),
}

impl View for XInfoType {
    type V = XInfoTypeV;

    open spec fn view(&self) -> XInfoTypeV {
        match self {
            XInfoType::Stream(c) => XInfoTypeV::Stream(
                match c {
                    Some(n) => Some(*n as int),
                    None => None,
                },
            ),
            XInfoType::Groups => XInfoTypeV::Groups,
            XInfoType::Consumers(g) => XInfoTypeV::Consumers(g@),
        }
    }
}

/// The mathematical state of a stream-information query: the stream key,
/// the full-detail flag, and the query kind.
pub struct XInfoCmdV {
    pub stream: Seq<char>,
    pub full: bool,
    pub info_type: XInfoTypeV,
}

/// The exact token sequence of a stream-information query frame: the
/// command token, the kind token, the stream key, then the kind-specific
/// trailing tokens. The full-detail flag only shows in the stream kind
/// and is silently inert otherwise.
pub open spec fn xinfo_frame(c: XInfoCmdV) -> Seq<ReqV> {
    match c.info_type {
        XInfoTypeV::Stream(count) => seq![
            ReqV::Text("XINFO"@),
            ReqV::Text("STREAM"@),
            ReqV::Text(c.stream),
        ] + (if c.full {
            seq![ReqV::Text("FULL"@)]
        } else {
            Seq::empty()
        }) + (match count {
            Some(n) => seq![ReqV::Number(n)],
            None => Seq::empty(),
        }),
        XInfoTypeV::Groups => seq![
            ReqV::Text("XINFO"@),
            ReqV::Text("GROUPS"@),
            ReqV::Text(c.stream),
        ],
        XInfoTypeV::Consumers(g) => seq![
            ReqV::Text("XINFO"@),
            ReqV::Text("CONSUMERS"@),
            ReqV::Text(c.stream),
            ReqV::Text(g),
        ],
    }
}

/// A stream-information query being assembled: the stream key, the query
/// kind, and whether full detail was requested.
pub struct XInfoCommand {
    stream: String,
    full: bool,
    info_type: XInfoType,
}

impl View for XInfoCommand {
    type V = XInfoCmdV;

    closed spec fn view(&self) -> XInfoCmdV {
        XInfoCmdV { stream: self.stream@, full: self.full, info_type: self.info_type@ }
    }
}

impl XInfoCommand {
    fn new(stream: String, info_type: XInfoType) -> (r: Self)
        ensures
            r@ == (XInfoCmdV { stream: stream@, full: false, info_type: info_type@ }),
    {
        XInfoCommand { stream, full: false, info_type }
    }

    /// Requests full detail; only meaningful for the stream kind and
    /// silently inert otherwise.
    pub fn full(self) -> (r: Self)
        ensures
            r@ == (XInfoCmdV { full: true, ..self@ }),
    {
        XInfoCommand { full: true, ..self }
    }

    /// Assembles the outgoing query frame.
    pub fn to_request(self) -> (r: Request)
        ensures
            r@ == ReqV::Array(xinfo_frame(self@)),
    {
        let ghost cv = self@;
        let XInfoCommand { stream, full, info_type } = self;
        let mut req: Vec<Request> = Vec::new();
        req.push(Request::Text("XINFO".to_string()));
        match info_type {
            XInfoType::Stream(count) => {
                req.push(Request::Text("STREAM".to_string()));
                req.push(Request::Text(stream));
                if full {
                    req.push(Request::Text("FULL".to_string()));
                }
                match count {
                    Some(entries_count) => {
                        req.push(Request::Number(entries_count));
                    },
                    None => {},
                }
            },
            XInfoType::Groups => {
                req.push(Request::Text("GROUPS".to_string()));
                req.push(Request::Text(stream));
            },
            XInfoType::Consumers(group) => {
                req.push(Request::Text("CONSUMERS".to_string()));
                req.push(Request::Text(stream));
                req.push(Request::Text(group));
            },
        }
        let r = Request::Array(req);
        proof {
            lemma_req_views(req@);
            assert(req_views(req@) =~= xinfo_frame(cv));
        }
        r
    }

    fn parse_response(items: Vec<Response>) -> (r: Result<XInfoItem, CommandError>)
        ensures
            (match r {
                Ok(item) => parse_response_spec(resp_views(items@)) == Ok::<XInfoItemV, ErrV>(
                    item@,
                ),
                Err(e) => parse_response_spec(resp_views(items@)) == Err::<XInfoItemV, ErrV>(e@),
            }),
    {
        proof {
            lemma_resp_views(items@);
        }
        if items.len() == 0 {
            return Err(
                CommandError::Output("Unknown Stream Info Key".to_string(), Response::Array(items)),
            );
        }
        match &items[0] {
            Response::Bytes(_) => Self::parse_stream_response(items),
            Response::Array(_) => Self::parse_groups_response(items),
            _ => {
                let first = items[0].clone();
                Err(CommandError::Output("Unknown Stream Info Key".to_string(), first))
            },
        }
    }

    fn parse_stream_response(items: Vec<Response>) -> (r: Result<XInfoItem, CommandError>)
        ensures
            (match r {
                Ok(item) => item@ matches XInfoItemV::Stream(s) && stream_info_spec(
                    resp_views(items@),
                ) == Ok::<StreamInfoV, ErrV>(s),
                Err(e) => stream_info_spec(resp_views(items@)) == Err::<StreamInfoV, ErrV>(e@),
            }),
    {
        let m = match parse_response_to_map(&items) {
            Ok(m) => m,
            Err(e) => {
                return Err(e);
            },
        };
        let length = match m.get_int("length") {
            Ok(v) => v,
            Err(e) => {
                return Err(e);
            },
        };
        let last_generated_id = match m.get_text("last-generated-id") {
            Ok(v) => v,
            Err(e) => {
                return Err(e);
            },
        };
        let max_deleted_entry_id = m.get_opt_text("max-deleted-entry-id");
        let recorded_first_entry_id = m.get_opt_text("recorded-first-entry-id");
        let entries_added = match m.get_int("entries-added") {
            Ok(v) => v,
            Err(e) => {
                return Err(e);
            },
        };
        let groups = match m.get("groups") {
            Some(v) => match StreamGroupsInfo::try_from(v.clone()) {
                Ok(g) => g,
                Err(e) => {
                    return Err(e);
                },
            },
            None => {
                return Err(CommandError::MissingField("groups".to_string()));
            },
        };
        let entries_info = match m.get("entries") {
            Some(v) => match v {
                Response::Array(eitems) => match records_list(eitems) {
                    Ok(rs) => StreamEntriesInfo::Full(rs),
                    Err(e) => {
                        return Err(e);
                    },
                },
                _ => {
                    return Err(
                        CommandError::Output(
                            "Unexpected Value Type, Want array".to_string(),
                            v.clone(),
                        ),
                    );
                },
            },
            None => {
                let first = match m.get("first-entry") {
                    Some(f) => match RawRecord::try_from(f.clone()) {
                        Ok(rec) => rec,
                        Err(e) => {
                            return Err(e);
                        },
                    },
                    None => {
                        return Err(CommandError::MissingField("first-entry".to_string()));
                    },
                };
                let last = match m.get("last-entry") {
                    Some(l) => match RawRecord::try_from(l.clone()) {
                        Ok(rec) => rec,
                        Err(e) => {
                            return Err(e);
                        },
                    },
                    None => {
                        return Err(CommandError::MissingField("last-entry".to_string()));
                    },
                };
                StreamEntriesInfo::Simple { first, last }
            },
        };
        let radix_tree = match StreamRadixTreeInfo::try_from(m) {
            Ok(rt) => rt,
            Err(e) => {
                return Err(e);
            },
        };
        Ok(
            XInfoItem::Stream(
                XInfoStream {
                    length,
                    radix_tree,
                    groups,
                    last_generated_id,
                    max_deleted_entry_id,
                    entries_added,
                    recorded_first_entry_id,
                    entries_info,
                },
            ),
        )
    }

    fn parse_groups_response(items: Vec<Response>) -> (r: Result<XInfoItem, CommandError>)
        ensures
            (match r {
                Ok(item) => item@ matches XInfoItemV::Groups(gs) && xinfo_groups_list_spec(
                    resp_views(items@),
                ) == Ok::<Seq<XInfoGroupV>, ErrV>(gs),
                Err(e) => xinfo_groups_list_spec(resp_views(items@)) == Err::<
                    Seq<XInfoGroupV>,
                    ErrV,
                >(e@),
            }),
    {
        match xinfo_groups_list(&items) {
            Ok(gs) => Ok(XInfoItem::Groups(gs)),
            Err(e) => Err(e),
        }
    }

    /// Decodes a consumers-list reply: an outer array of consumer
    /// records.
    pub fn parse_consumers_response(resp: Response) -> (r: Result<XInfoItem, CommandError>)
        ensures
            (match r {
                Ok(item) => consumers_response_spec(resp@) == Ok::<XInfoItemV, ErrV>(item@),
                Err(e) => consumers_response_spec(resp@) == Err::<XInfoItemV, ErrV>(e@),
            }),
    {
        match resp {
            Response::Array(items) => match xinfo_consumers_list(&items) {
                Ok(cs) => Ok(XInfoItem::Consumers(cs)),
                Err(e) => Err(e),
            },
            _ => Err(CommandError::Output("Unexpected Value".to_string(), resp)),
        }
    }

    /// Decodes a stream-information reply: an outer array resolved by its
    /// first element into a stream-info map or a list of group records.
    pub fn to_output(val: Response) -> (r: Result<XInfoItem, CommandError>)
        ensures
            (match r {
                Ok(item) => xinfo_output_spec(val@) == Ok::<XInfoItemV, ErrV>(item@),
                Err(e) => xinfo_output_spec(val@) == Err::<XInfoItemV, ErrV>(e@),
            }),
    {
        match val {
            Response::Array(items) => Self::parse_response(items),
            _ => Err(CommandError::Output("Unexpected Value".to_string(), val)),
        }
    }
}

/// Starts a stream-information query for a stream key and a query kind,
/// with full detail not requested.
#[allow(non_snake_case)]
pub fn XInfo(key: String, info_type: XInfoType) -> (r: XInfoCommand)
    ensures
        r@ == (XInfoCmdV { stream: key@, full: false, info_type: info_type@ }),
{
    XInfoCommand::new(key, info_type)
}

/// A decoded detail list holds one recursively decoded record per array
/// element, in order.
pub proof fn lemma_groups_list_ok(s: Seq<RespV>)
    ensures
        groups_list_spec(s) matches Ok(ds) ==> ds.len() == s.len() && (forall|i: int|
            0 <= i < s.len() ==> group_info_spec(s[i]) == Ok::<GroupInfoV, ErrV>(ds[i])),
    decreases s.len(),
{
    if s.len() > 0 {
        lemma_groups_list_ok(s.skip(1));
        if groups_list_spec(s) is Ok {
            let ds = groups_list_spec(s)->Ok_0;
            let r = groups_list_spec(s.skip(1))->Ok_0;
            assert forall|i: int| 0 <= i < s.len() implies group_info_spec(s[i]) == Ok::<
                GroupInfoV,
                ErrV,
            >(ds[i]) by {
                if i > 0 {
                    assert(s.skip(1)[i - 1] == s[i]);
                    assert(ds[i] == r[i - 1]);
                }
            }
        }
    }
}

/// The groups-field resolver law: an integer always yields the count; an
/// array either yields the detail list, with exactly one recursively
/// decoded record per element, or fails exactly when the element decoding
/// fails; any other shape is the fixed decode error.
pub proof fn lemma_groups_resolver(v: RespV)
    ensures
        v matches RespV::Integer(n) ==> groups_info_spec(v) == Ok::<GroupsInfoV, ErrV>(
            GroupsInfoV::Simple(n),
        ),
        v matches RespV::Array(l) ==> (match groups_info_spec(v) {
            Ok(g) => g matches GroupsInfoV::Full(ds) && ds.len() == l.len() && (forall|i: int|
                0 <= i < l.len() ==> group_info_spec(l[i]) == Ok::<GroupInfoV, ErrV>(ds[i])),
            Err(e) => groups_list_spec(l) == Err::<Seq<GroupInfoV>, ErrV>(e),
        }),
        !(v is Integer) && !(v is Array) ==> groups_info_spec(v) == Err::<GroupsInfoV, ErrV>(
            ErrV::Output("Unexpected Value Type, Want i64 or array"@, v),
        ),
{
    match v {
        RespV::Array(l) => lemma_groups_list_ok(l),
        _ => {},
    }
}

/// The entries-view resolver law: a map binding `entries` can only yield
/// the full list; one without `entries` can only yield the representative
/// pair; one with neither `entries` nor `first-entry` fails.
pub proof fn lemma_entries_resolver(m: Seq<(Seq<char>, RespV)>)
    ensures
        map_get(m, "entries"@) is Some ==> (entries_info_spec(m) matches Ok(e) ==> e is Full),
        map_get(m, "entries"@) is None ==> (entries_info_spec(m) matches Ok(e) ==> e is Simple),
        map_get(m, "entries"@) is None && map_get(m, "first-entry"@) is None ==> entries_info_spec(
            m,
        ) == Err::<EntriesInfoV, ErrV>(ErrV::MissingField("first-entry"@)),
{
}

} // verus!
