//! How single fields of an object are written and read.
use vstd::prelude::*;
use crate::fields::{
    bool_of, decode_bool, decode_i32, decode_text, decode_texts, decode_u32, decode_u32s,
    decode_u64, decode_u8, defaulted, encode_texts, encode_u32s, encode_u64, i32_of, optional,
    required, text_of, texts_of, texts_tree, u32_of, u32s_of, u32s_tree, u64_of, u8_of, unsigned,
};
use crate::text::texts;
use crate::value::{entry_trees, find_entry, Json, Tree};
use crate::views::opt_view;

verus! {

pub open spec fn texts_field(items: Seq<Seq<char>>) -> Option<Tree> {
    if items.len() == 0 {
        None
    } else {
        Some(texts_tree(items))
    }
}

pub(crate) fn encode_texts_field(items: &Vec<String>) -> (r: Option<Json>)
    ensures
        opt_view(r) == texts_field(texts(items@)),
{
    if items.len() == 0 {
        None
    } else {
        Some(encode_texts(items))
    }
}

pub open spec fn opt_u8_tree(v: Option<u8>) -> Option<Tree> {
    match v {
        Some(x) => Some(unsigned(x as u64)),
        None => None,
    }
}

pub(crate) fn encode_opt_u8(v: Option<u8>) -> (r: Option<Json>)
    ensures
        opt_view(r) == opt_u8_tree(v),
{
    match v {
        Some(x) => Some(encode_u64(x as u64)),
        None => None,
    }
}

pub open spec fn opt_u32s_tree(v: Option<Seq<u32>>) -> Option<Tree> {
    match v {
        Some(x) => Some(u32s_tree(x)),
        None => None,
    }
}

pub(crate) fn encode_opt_u32s(v: &Option<Vec<u32>>) -> (r: Option<Json>)
    ensures
        opt_view(r) == opt_u32s_tree(opt_view(*v)),
{
    match v {
        Some(x) => Some(encode_u32s(x)),
        None => None,
    }
}

pub open spec fn req_u32_at(entries: Seq<(Seq<char>, Tree)>, key: Seq<char>) -> Option<u32> {
    required(entries, key, |t: Tree| u32_of(t))
}

pub(crate) fn read_req_u32_at(entries: &Vec<(String, Json)>, key: &str) -> (r: Option<u32>)
    ensures
        match r {
            Some(x) => req_u32_at(entry_trees(entries@), key@) == Some(x),
            None => req_u32_at(entry_trees(entries@), key@) is None,
        },
{
    match find_entry(entries, key) {
        None => None,
        Some(value) => decode_u32(value),
    }
}

pub open spec fn req_i32_at(entries: Seq<(Seq<char>, Tree)>, key: Seq<char>) -> Option<i32> {
    required(entries, key, |t: Tree| i32_of(t))
}

pub(crate) fn read_req_i32_at(entries: &Vec<(String, Json)>, key: &str) -> (r: Option<i32>)
    ensures
        match r {
            Some(x) => req_i32_at(entry_trees(entries@), key@) == Some(x),
            None => req_i32_at(entry_trees(entries@), key@) is None,
        },
{
    match find_entry(entries, key) {
        None => None,
        Some(value) => decode_i32(value),
    }
}

pub open spec fn req_u64_at(entries: Seq<(Seq<char>, Tree)>, key: Seq<char>) -> Option<u64> {
    required(entries, key, |t: Tree| u64_of(t))
}

pub(crate) fn read_req_u64_at(entries: &Vec<(String, Json)>, key: &str) -> (r: Option<u64>)
    ensures
        match r {
            Some(x) => req_u64_at(entry_trees(entries@), key@) == Some(x),
            None => req_u64_at(entry_trees(entries@), key@) is None,
        },
{
    match find_entry(entries, key) {
        None => None,
        Some(value) => decode_u64(value),
    }
}

pub open spec fn opt_text_at(
    entries: Seq<(Seq<char>, Tree)>,
    key: Seq<char>,
) -> Option<Option<Seq<char>>> {
    optional(entries, key, |t: Tree| text_of(t))
}

pub(crate) fn read_opt_text_at(
    entries: &Vec<(String, Json)>,
    key: &str,
) -> (r: Option<Option<String>>)
    ensures
        match r {
            Some(x) => opt_text_at(entry_trees(entries@), key@) == Some(opt_view(x)),
            None => opt_text_at(entry_trees(entries@), key@) is None,
        },
{
    match find_entry(entries, key) {
        None => Some(None),
        Some(Json::Null) => Some(None),
        Some(value) => match decode_text(value) {
            Some(x) => Some(Some(x)),
            None => None,
        },
    }
}

pub open spec fn opt_u32s_at(
    entries: Seq<(Seq<char>, Tree)>,
    key: Seq<char>,
) -> Option<Option<Seq<u32>>> {
    optional(entries, key, |t: Tree| u32s_of(t))
}

pub(crate) fn read_opt_u32s_at(
    entries: &Vec<(String, Json)>,
    key: &str,
) -> (r: Option<Option<Vec<u32>>>)
    ensures
        match r {
            Some(x) => opt_u32s_at(entry_trees(entries@), key@) == Some(opt_view(x)),
            None => opt_u32s_at(entry_trees(entries@), key@) is None,
        },
{
    match find_entry(entries, key) {
        None => Some(None),
        Some(Json::Null) => Some(None),
        Some(value) => match decode_u32s(value) {
            Some(x) => Some(Some(x)),
            None => None,
        },
    }
}

pub open spec fn opt_u8_at(entries: Seq<(Seq<char>, Tree)>, key: Seq<char>) -> Option<Option<u8>> {
    optional(entries, key, |t: Tree| u8_of(t))
}

pub(crate) fn read_opt_u8_at(entries: &Vec<(String, Json)>, key: &str) -> (r: Option<Option<u8>>)
    ensures
        match r {
            Some(x) => opt_u8_at(entry_trees(entries@), key@) == Some(x),
            None => opt_u8_at(entry_trees(entries@), key@) is None,
        },
{
    match find_entry(entries, key) {
        None => Some(None),
        Some(Json::Null) => Some(None),
        Some(value) => match decode_u8(value) {
            Some(x) => Some(Some(x)),
            None => None,
        },
    }
}

pub open spec fn req_text_at(entries: Seq<(Seq<char>, Tree)>, key: Seq<char>) -> Option<Seq<char>> {
    required(entries, key, |t: Tree| text_of(t))
}

pub(crate) fn read_req_text_at(entries: &Vec<(String, Json)>, key: &str) -> (r: Option<String>)
    ensures
        match r {
            Some(x) => req_text_at(entry_trees(entries@), key@) == Some(x@),
            None => req_text_at(entry_trees(entries@), key@) is None,
        },
{
    match find_entry(entries, key) {
        None => None,
        Some(value) => decode_text(value),
    }
}

pub open spec fn def_texts_at(
    entries: Seq<(Seq<char>, Tree)>,
    key: Seq<char>,
) -> Option<Seq<Seq<char>>> {
    defaulted(entries, key, |t: Tree| texts_of(t), Seq::empty())
}

pub(crate) fn read_def_texts_at(
    entries: &Vec<(String, Json)>,
    key: &str,
) -> (r: Option<Vec<String>>)
    ensures
        match r {
            Some(x) => def_texts_at(entry_trees(entries@), key@) == Some(texts(x@)),
            None => def_texts_at(entry_trees(entries@), key@) is None,
        },
{
    match find_entry(entries, key) {
        None => {
            let none: Vec<String> = Vec::new();
            assert(texts(none@) =~= Seq::empty());
            Some(none)
        },
        Some(value) => decode_texts(value),
    }
}

pub open spec fn def_bool_at(entries: Seq<(Seq<char>, Tree)>, key: Seq<char>) -> Option<bool> {
    defaulted(entries, key, |t: Tree| bool_of(t), false)
}

pub(crate) fn read_def_bool_at(entries: &Vec<(String, Json)>, key: &str) -> (r: Option<bool>)
    ensures
        match r {
            Some(x) => def_bool_at(entry_trees(entries@), key@) == Some(x),
            None => def_bool_at(entry_trees(entries@), key@) is None,
        },
{
    match find_entry(entries, key) {
        None => {
            Some(false)
        },
        Some(value) => decode_bool(value),
    }
}

} // verus!
