//! Configuration values read from environment variables.
//!
//! The surrounding application hands the process environment over as a
//! list of key/value pairs of bytes; the lookups here pick out the values
//! the client needs, with the first binding of a key winning.

use vstd::prelude::*;

verus! {

/// Whether the two byte vectors hold the same bytes.
fn bytes_eq(a: &Vec<u8>, b: &Vec<u8>) -> (r: bool)
    ensures
        r <==> a@ == b@,
{
    if a.len() != b.len() {
        return false;
    }
    let mut i: usize = 0;
    while i < a.len()
        invariant
            a@.len() == b@.len(),
            i <= a@.len(),
            forall|j: int| 0 <= j < i ==> a@[j] == b@[j],
        decreases a@.len() - i,
    {
        if a[i] != b[i] {
            return false;
        }
        i += 1;
    }
    proof {
        assert(a@ =~= b@);
    }
    true
}

/// Look a key up in an environment, first binding wins.
pub fn get_env<'a>(vars: &'a Vec<(Vec<u8>, Vec<u8>)>, key: &Vec<u8>) -> (r: Option<&'a Vec<u8>>)
    ensures
        match r {
            Some(value) => exists|i: int|
                {
                    &&& 0 <= i < vars@.len()
                    &&& #[trigger] vars@[i].0@ == key@
                    &&& value@ == vars@[i].1@
                    &&& forall|j: int| 0 <= j < i ==> vars@[j].0@ != key@
                },
            None => forall|i: int| 0 <= i < vars@.len() ==> #[trigger] vars@[i].0@ != key@,
        },
{
    let mut i: usize = 0;
    while i < vars.len()
        invariant
            i <= vars@.len(),
            forall|j: int| 0 <= j < i ==> vars@[j].0@ != key@,
        decreases vars@.len() - i,
    {
        if bytes_eq(&vars[i].0, key) {
            return Some(&vars[i].1);
        }
        i += 1;
    }
    None
}

/// The name of the variable holding the client identity file path.
pub open spec fn stctrl_id_file_key() -> Seq<u8> {
    seq![83u8, 84u8, 67u8, 84u8, 82u8, 76u8, 95u8, 73u8, 68u8, 95u8, 70u8, 73u8, 76u8, 69u8]
}

/// The name of the variable holding the node ticket file path.
pub open spec fn stctrl_node_ticket_file_key() -> Seq<u8> {
    seq![
        83u8,
        84u8,
        67u8,
        84u8,
        82u8,
        76u8,
        95u8,
        78u8,
        79u8,
        68u8,
        69u8,
        95u8,
        84u8,
        73u8,
        67u8,
        75u8,
        69u8,
        84u8,
        95u8,
        70u8,
        73u8,
        76u8,
        69u8,
    ]
}

/// Build `STCTRL_ID_FILE` as bytes.
fn stctrl_id_file_name() -> (k: Vec<u8>)
    ensures
        k@ == stctrl_id_file_key(),
{
    let k: Vec<u8> = vec![
        83u8, 84u8, 67u8, 84u8, 82u8, 76u8, 95u8, 73u8, 68u8, 95u8, 70u8, 73u8, 76u8, 69u8,
    ];
    proof {
        assert(k@ =~= stctrl_id_file_key());
    }
    k
}

/// Build `STCTRL_NODE_TICKET_FILE` as bytes.
fn stctrl_node_ticket_file_name() -> (k: Vec<u8>)
    ensures
        k@ == stctrl_node_ticket_file_key(),
{
    let k: Vec<u8> = vec![
        83u8, 84u8, 67u8, 84u8, 82u8, 76u8, 95u8, 78u8, 79u8, 68u8, 69u8, 95u8, 84u8, 73u8, 67u8,
        75u8, 69u8, 84u8, 95u8, 70u8, 73u8, 76u8, 69u8,
    ];
    proof {
        assert(k@ =~= stctrl_node_ticket_file_key());
    }
    k
}

/// The client identity file path named by the environment, if any.
pub fn env_stctrl_id_file(vars: &Vec<(Vec<u8>, Vec<u8>)>) -> (r: Option<&Vec<u8>>)
    ensures
        match r {
            Some(value) => exists|i: int|
                {
                    &&& 0 <= i < vars@.len()
                    &&& #[trigger] vars@[i].0@ == stctrl_id_file_key()
                    &&& value@ == vars@[i].1@
                    &&& forall|j: int| 0 <= j < i ==> vars@[j].0@ != stctrl_id_file_key()
                },
            None => forall|i: int|
                0 <= i < vars@.len() ==> #[trigger] vars@[i].0@ != stctrl_id_file_key(),
        },
{
    let key = stctrl_id_file_name();
    get_env(vars, &key)
}

/// The node ticket file path named by the environment, if any.
pub fn env_stctrl_node_ticket_file(vars: &Vec<(Vec<u8>, Vec<u8>)>) -> (r: Option<&Vec<u8>>)
    ensures
        match r {
            Some(value) => exists|i: int|
                {
                    &&& 0 <= i < vars@.len()
                    &&& #[trigger] vars@[i].0@ == stctrl_node_ticket_file_key()
                    &&& value@ == vars@[i].1@
                    &&& forall|j: int| 0 <= j < i ==> vars@[j].0@ != stctrl_node_ticket_file_key()
                },
            None => forall|i: int|
                0 <= i < vars@.len() ==> #[trigger] vars@[i].0@ != stctrl_node_ticket_file_key(),
        },
{
    let key = stctrl_node_ticket_file_name();
    get_env(vars, &key)
}

} // verus!
