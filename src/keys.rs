//! The key layout of the broker.

use vstd::prelude::*;
use crate::text::{hyphenated, id_text};

verus! {

/// The ordered set of pending tasks of queue `name`, scored by priority.
pub open spec fn queue_key(name: Seq<char>) -> Seq<char> {
    "dtq:queue:"@ + name
}

/// The record holding the latest form of task `id`.
pub open spec fn task_key(id: u128) -> Seq<char> {
    "dtq:queue:task:"@ + hyphenated(id)
}

/// The result mirror of task `id`.
pub open spec fn result_key(id: u128) -> Seq<char> {
    "dtq:results:result:"@ + hyphenated(id)
}

/// The failure mirror of task `id`.
pub open spec fn failed_key(id: u128) -> Seq<char> {
    "dtq:failed:failed:"@ + hyphenated(id)
}

/// The ordered set of scheduled tasks, scored by due time.
pub open spec fn scheduled_key() -> Seq<char> {
    "dtq:scheduled"@
}

/// The ordered set of claimed tasks, scored by claim time.
pub open spec fn processing_key() -> Seq<char> {
    "dtq:processing"@
}

/// The field of a task record that holds the serialized task.
pub open spec fn data_field() -> Seq<char> {
    "data"@
}

/// The queue whose ordered set has the key `key`: what follows the queue
/// prefix, where that holds no further separator.
pub open spec fn queue_name_of(key: Seq<char>) -> Option<Seq<char>> {
    let p = "dtq:queue:"@;
    if p.len() <= key.len() && key.subrange(0, p.len() as int) == p
        && !key.subrange(p.len() as int, key.len() as int).contains(':') {
        Some(key.subrange(p.len() as int, key.len() as int))
    } else {
        None
    }
}

/// The queue names among `keys`, in their order.
pub open spec fn queue_names_of(keys: Seq<Seq<char>>) -> Seq<Seq<char>>
    decreases keys.len(),
{
    if keys.len() == 0 {
        seq![]
    } else {
        let rest = queue_names_of(keys.drop_last());
        match queue_name_of(keys.last()) {
            Some(n) => rest.push(n),
            None => rest,
        }
    }
}

fn prefixed(prefix: &str, rest: &str) -> (r: String)
    ensures
        r@ == prefix@ + rest@,
{
    let mut r = String::from_str(prefix);
    r.append(rest);
    r
}

/// The key of the ordered set of queue `name`.
pub fn queue_key_for(name: &str) -> (r: String)
    ensures
        r@ == queue_key(name@),
{
    prefixed("dtq:queue:", name)
}

/// The key of the record of task `id`.
pub fn task_key_for(id: u128) -> (r: String)
    ensures
        r@ == task_key(id),
{
    let t = id_text(id);
    prefixed("dtq:queue:task:", t.as_str())
}

/// The key of the result mirror of task `id`.
pub fn result_key_for(id: u128) -> (r: String)
    ensures
        r@ == result_key(id),
{
    let t = id_text(id);
    prefixed("dtq:results:result:", t.as_str())
}

/// The key of the failure mirror of task `id`.
pub fn failed_key_for(id: u128) -> (r: String)
    ensures
        r@ == failed_key(id),
{
    let t = id_text(id);
    prefixed("dtq:failed:failed:", t.as_str())
}

/// The key of the scheduled set.
pub fn scheduled_key_text() -> (r: String)
    ensures
        r@ == scheduled_key(),
{
    String::from_str("dtq:scheduled")
}

/// The key of the processing set.
pub fn processing_key_text() -> (r: String)
    ensures
        r@ == processing_key(),
{
    String::from_str("dtq:processing")
}

/// The pattern that matches every key under the queue prefix.
pub fn queue_key_pattern() -> (r: String)
    ensures
        r@ == "dtq:queue:*"@,
{
    String::from_str("dtq:queue:*")
}

fn has_prefix(s: &str, p: &str) -> (r: bool)
    ensures
        r == (p@.len() <= s@.len() && s@.subrange(0, p@.len() as int) == p@),
{
    let n = p.unicode_len();
    if n > s.unicode_len() {
        return false;
    }
    let mut i: usize = 0;
    while i < n
        invariant
            n == p@.len(),
            n <= s@.len(),
            i <= n,
            s@.subrange(0, i as int) == p@.subrange(0, i as int),
        decreases n - i,
    {
        if s.get_char(i) != p.get_char(i) {
            assert(s@.subrange(0, n as int)[i as int] != p@[i as int]);
            return false;
        }
        i = i + 1;
        assert(s@.subrange(0, i as int) =~= p@.subrange(0, i as int));
    }
    assert(p@.subrange(0, n as int) =~= p@);
    true
}

/// The queue whose ordered set has the key `key`, if it is one.
pub fn queue_name_from_key(key: &str) -> (r: Option<String>)
    ensures
        match r {
            Some(n) => queue_name_of(key@) == Some(n@),
            None => queue_name_of(key@) is None,
        },
{
    let p = "dtq:queue:";
    proof {
        reveal_strlit("dtq:queue:");
    }
    if !has_prefix(key, p) {
        return None;
    }
    let n = key.unicode_len();
    let rest = key.substring_char(10, n);
    let m = rest.unicode_len();
    assert(queue_name_of(key@) == (if rest@.contains(':') { None } else { Some(rest@) }));
    let mut i: usize = 0;
    while i < m
        invariant
            queue_name_of(key@) == (if rest@.contains(':') { None } else { Some(rest@) }),
            m == rest@.len(),
            i <= m,
            forall|j: int| 0 <= j < i ==> rest@[j] != ':',
        decreases m - i,
    {
        if rest.get_char(i) == ':' {
            assert(rest@[i as int] == ':');
            assert(rest@.contains(':'));

            return None;
        }
        i = i + 1;
    }
    Some(String::from_str(rest))
}

/// The names of the queues among the keys found under the queue prefix.
pub fn queue_names(keys: &Vec<String>) -> (r: Vec<String>)
    ensures
        r@.map_values(|s: String| s@) == queue_names_of(keys@.map_values(|s: String| s@)),
{
    let mut r: Vec<String> = Vec::new();
    let mut i: usize = 0;
    while i < keys.len()
        invariant
            i <= keys@.len(),
            r@.map_values(|s: String| s@)
                == queue_names_of(keys@.subrange(0, i as int).map_values(|s: String| s@)),
        decreases keys@.len() - i,
    {
        let ghost before = keys@.subrange(0, i as int).map_values(|s: String| s@);
        let ghost after = keys@.subrange(0, i + 1).map_values(|s: String| s@);
        proof {
            assert(after.drop_last() =~= before);
            assert(after.last() == keys@[i as int]@);
        }
        match queue_name_from_key(keys[i].as_str()) {
            Some(n) => {
                r.push(n);
                proof {
                    assert(r@.map_values(|s: String| s@) =~= queue_names_of(after));
                }
            },
            None => {},
        }
        i = i + 1;
    }
    assert(keys@.subrange(0, keys@.len() as int) =~= keys@);
    r
}

} // verus!
