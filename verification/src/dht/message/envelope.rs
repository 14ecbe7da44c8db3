//! The envelope of a message: its transaction id and its type, which decides
//! how the rest is read.

use crate::bencode::convert::{bytes_at, list_at, lookup_and_convert_bytes, lookup_and_convert_list};
use crate::bencode::text::key_of;
use crate::bencode::value::{Bencode, BencodeValue};
use crate::dht::error::{invalid, invalid_message, Detail, DetailView, DhtError, DhtFault, Side};
use crate::dht::message::request::{request_of, RequestModel, RequestType};
use crate::dht::message::response::{response_of, ExpectedResponse, ResponseModel, ResponseType};
use crate::dht::message::{
    ERROR_TYPE_KEY, MESSAGE_TYPE_KEY, REQUEST_TYPE_KEY, RESPONSE_TYPE_KEY, TRANSACTION_ID_KEY,
};
use crate::util::convert::{bytes_equal, copy_bytes};
use vstd::prelude::*;

verus! {

/// The kinds of response that the owners of the open transactions wait for.
#[derive(Debug)]
pub struct ExpectedTable {
    pub entries: Vec<(Vec<u8>, ExpectedResponse)>,
}

/// The transactions of a table and what each waits for.
pub open spec fn table_view(entries: Seq<(Vec<u8>, ExpectedResponse)>) -> Seq<
    (Seq<u8>, ExpectedResponse),
> {
    Seq::new(entries.len(), |i: int| (entries[i].0@, entries[i].1))
}

/// What the first transaction with the id `trans_id` waits for; no response
/// where there is no such transaction.
pub open spec fn expected_in(table: Seq<(Seq<u8>, ExpectedResponse)>, trans_id: Seq<u8>) -> ExpectedResponse
    decreases table.len(),
{
    if table.len() == 0 {
        ExpectedResponse::NoResponse
    } else if table[0].0 == trans_id {
        table[0].1
    } else {
        expected_in(table.drop_first(), trans_id)
    }
}

/// The table without its first transaction with the id `trans_id`.
pub open spec fn without(table: Seq<(Seq<u8>, ExpectedResponse)>, trans_id: Seq<u8>) -> Seq<
    (Seq<u8>, ExpectedResponse),
>
    decreases table.len(),
{
    if table.len() == 0 {
        table
    } else if table[0].0 == trans_id {
        table.drop_first()
    } else {
        seq![table[0]] + without(table.drop_first(), trans_id)
    }
}

impl View for ExpectedTable {
    type V = Seq<(Seq<u8>, ExpectedResponse)>;

    open spec fn view(&self) -> Seq<(Seq<u8>, ExpectedResponse)> {
        table_view(self.entries@)
    }
}

impl ExpectedTable {
    /// A table without transactions.
    pub fn new() -> (r: ExpectedTable)
        ensures
            r@ == Seq::<(Seq<u8>, ExpectedResponse)>::empty(),
    {
        let r = ExpectedTable { entries: Vec::new() };
        assert(r@ =~= Seq::<(Seq<u8>, ExpectedResponse)>::empty());
        r
    }

    /// The index of the first transaction with the id `trans_id`.
    fn find(&self, trans_id: &[u8]) -> (r: Option<usize>)
        ensures
            match r {
                Some(i) => i < self@.len() && self@[i as int].0 == trans_id@ && expected_in(
                    self@,
                    trans_id@,
                ) == self@[i as int].1 && without(self@, trans_id@) == self@.remove(i as int),
                None => expected_in(self@, trans_id@) == ExpectedResponse::NoResponse && without(
                    self@,
                    trans_id@,
                ) == self@,
            },
    {
        let ghost table = self@;
        let mut i: usize = 0;
        proof {
            assert(table.skip(0) =~= table);
            assert(table.subrange(0, 0) + without(table, trans_id@) =~= without(table, trans_id@));
        }
        while i < self.entries.len()
            invariant
                i <= self.entries.len(),
                table == self@,
                expected_in(table, trans_id@) == expected_in(table.skip(i as int), trans_id@),
                without(table, trans_id@) == table.subrange(0, i as int) + without(
                    table.skip(i as int),
                    trans_id@,
                ),
            decreases self.entries.len() - i,
        {
            proof {
                let tail = table.skip(i as int);
                assert(tail[0] == table[i as int]);
                assert(tail.drop_first() =~= table.skip(i + 1));
                assert(table.subrange(0, i as int) + (seq![tail[0]] + without(
                    tail.drop_first(),
                    trans_id@,
                )) =~= table.subrange(0, i + 1) + without(table.skip(i + 1), trans_id@));
                assert(table.subrange(0, i as int) + tail.drop_first() =~= table.remove(i as int));
            }
            if bytes_equal(self.entries[i].0.as_slice(), trans_id) {
                return Some(i);
            }
            i += 1;
        }
        proof {
            assert(table.skip(i as int) =~= Seq::<(Seq<u8>, ExpectedResponse)>::empty());
            assert(table.subrange(0, i as int) + Seq::<(Seq<u8>, ExpectedResponse)>::empty()
                =~= table);
        }
        None
    }

    /// What the transaction `trans_id` waits for.
    pub fn expected(&self, trans_id: &[u8]) -> (r: ExpectedResponse)
        ensures
            r == expected_in(self@, trans_id@),
    {
        match self.find(trans_id) {
            Some(i) => self.entries[i].1,
            None => ExpectedResponse::NoResponse,
        }
    }

    /// Opens the transaction `trans_id`, which waits for a response of the
    /// kind `kind`. A transaction of this id that is open already goes first.
    pub fn expect(&mut self, trans_id: &[u8], kind: ExpectedResponse)
        ensures
            final(self)@ == without(old(self)@, trans_id@).push((trans_id@, kind)),
    {
        self.close(trans_id);
        let ghost before = self@;
        self.entries.push((copy_bytes(trans_id), kind));
        assert(self@ =~= before.push((trans_id@, kind)));
    }

    /// Closes the transaction `trans_id` and says what it waited for.
    pub fn close(&mut self, trans_id: &[u8]) -> (r: ExpectedResponse)
        ensures
            r == expected_in(old(self)@, trans_id@),
            final(self)@ == without(old(self)@, trans_id@),
    {
        match self.find(trans_id) {
            Some(i) => {
                let ghost before = self@;
                let entry = self.entries.remove(i);
                assert(self@ =~= before.remove(i as int));
                entry.1
            },
            None => ExpectedResponse::NoResponse,
        }
    }

    /// The number of open transactions.
    pub fn len(&self) -> (r: usize)
        ensures
            r == self@.len(),
    {
        self.entries.len()
    }
}

/// A message that was accepted: a query or a response.
#[derive(Copy, Clone, PartialEq, Eq, Debug)]
pub enum MessageType<'a> {
    Request(RequestType<'a>),
    Response(ResponseType<'a>),
}

/// What a message holds, as the model sees it.
pub enum EnvelopeModel {
    Request(RequestModel),
    Response(ResponseModel),
}

impl<'a> View for MessageType<'a> {
    type V = EnvelopeModel;

    open spec fn view(&self) -> EnvelopeModel {
        match self {
            MessageType::Request(r) => EnvelopeModel::Request(r@),
            MessageType::Response(r) => EnvelopeModel::Response(r@),
        }
    }
}

/// What the error list of a message tells: always a fault, the code and the
/// message of the remote node where the list is in order.
pub open spec fn error_of(root: BencodeValue, trans_id: Seq<u8>) -> DhtFault {
    match list_at(root, key_of(ERROR_TYPE_KEY)) {
        Err(fault) => invalid(Side::Response, trans_id, DetailView::Convert(fault)),
        Ok(l) => if l.len() == 2 && l[0] is Int && l[1] is Bytes {
            DhtFault::InvalidMessage { code: l[0]->Int_0, message: l[1]->Bytes_0 }
        } else {
            invalid(Side::Response, trans_id, DetailView::MalformedError)
        },
    }
}

/// What the dictionary `root` of a message holds, given what the open
/// transactions `table` wait for.
///
/// The transaction id stands under `t`, the type under `y`. A query (`q`) is
/// read as the kind that stands under `q`. A response (`r`) is read as the
/// kind that its transaction waits for: where nobody waits it is unsolicited,
/// and the two kinds that are not in use are unknown. An error (`e`) is a
/// fault with the code and message of the remote node. Any other type is
/// unknown.
pub open spec fn message_of(root: BencodeValue, table: Seq<(Seq<u8>, ExpectedResponse)>) -> Result<
    EnvelopeModel,
    DhtFault,
> {
    match bytes_at(root, key_of(TRANSACTION_ID_KEY)) {
        Err(fault) => Err(invalid(Side::Request, Seq::empty(), DetailView::Convert(fault))),
        Ok(trans_id) => match bytes_at(root, key_of(MESSAGE_TYPE_KEY)) {
            Err(fault) => Err(invalid(Side::Request, trans_id, DetailView::Convert(fault))),
            Ok(kind) => if kind == key_of(REQUEST_TYPE_KEY) {
                match bytes_at(root, key_of(REQUEST_TYPE_KEY)) {
                    Err(fault) => Err(invalid(Side::Request, trans_id, DetailView::Convert(fault))),
                    Ok(query) => match request_of(root, trans_id, query) {
                        Ok(model) => Ok(EnvelopeModel::Request(model)),
                        Err(fault) => Err(fault),
                    },
                }
            } else if kind == key_of(RESPONSE_TYPE_KEY) {
                let expected = expected_in(table, trans_id);
                if expected is GetData || expected is PutData {
                    Err(invalid(Side::Response, trans_id, DetailView::UnknownType))
                } else {
                    match response_of(root, trans_id, expected) {
                        Ok(model) => Ok(EnvelopeModel::Response(model)),
                        Err(fault) => Err(fault),
                    }
                }
            } else if kind == key_of(ERROR_TYPE_KEY) {
                Err(error_of(root, trans_id))
            } else {
                Err(invalid(Side::Request, trans_id, DetailView::UnknownType))
            },
        },
    }
}

/// The fault that the error list of a message tells.
fn read_error(root: &Bencode, trans_id: &[u8]) -> (r: DhtError)
    ensures
        r@ == error_of(root@, trans_id@),
{
    let list = match lookup_and_convert_list(root, ERROR_TYPE_KEY.as_bytes()) {
        Ok(list) => list,
        Err(e) => {
            return invalid_message(Side::Response, trans_id, Detail::Convert(e));
        },
    };
    if list.len() == 2 {
        match (list[0].as_int(), list[1].as_bytes()) {
            (Some(code), Some(message)) => {
                return DhtError::InvalidMessage { code, message: copy_bytes(message) };
            },
            _ => {},
        }
    }
    invalid_message(Side::Response, trans_id, Detail::MalformedError)
}

impl<'a> MessageType<'a> {
    /// Reads the message that the dictionary `message` is, given what the
    /// open transactions wait for: see [`message_of`].
    pub fn new(message: &'a Bencode, table: &ExpectedTable) -> (r: Result<MessageType<'a>, DhtError>)
        ensures
            match message_of(message@, table@) {
                Ok(model) => r matches Ok(found) && found@ == model,
                Err(fault) => r matches Err(e) && e@ == fault,
            },
    {
        let trans_id = match lookup_and_convert_bytes(message, TRANSACTION_ID_KEY.as_bytes()) {
            Ok(t) => t,
            Err(e) => {
                let empty: [u8; 0] = [];
                assert(empty@ =~= Seq::<u8>::empty());
                return Err(invalid_message(Side::Request, empty.as_slice(), Detail::Convert(e)));
            },
        };
        let kind = match lookup_and_convert_bytes(message, MESSAGE_TYPE_KEY.as_bytes()) {
            Ok(kind) => kind,
            Err(e) => {
                return Err(invalid_message(Side::Request, trans_id, Detail::Convert(e)));
            },
        };
        if bytes_equal(kind, REQUEST_TYPE_KEY.as_bytes()) {
            let query = match lookup_and_convert_bytes(message, REQUEST_TYPE_KEY.as_bytes()) {
                Ok(query) => query,
                Err(e) => {
                    return Err(invalid_message(Side::Request, trans_id, Detail::Convert(e)));
                },
            };
            match RequestType::from_parts(message, trans_id, query) {
                Ok(request) => Ok(MessageType::Request(request)),
                Err(e) => Err(e),
            }
        } else if bytes_equal(kind, RESPONSE_TYPE_KEY.as_bytes()) {
            let expected = table.expected(trans_id);
            match expected {
                ExpectedResponse::GetData => Err(
                    invalid_message(Side::Response, trans_id, Detail::UnknownType),
                ),
                ExpectedResponse::PutData => Err(
                    invalid_message(Side::Response, trans_id, Detail::UnknownType),
                ),
                _ => {
                    match ResponseType::from_parts(message, trans_id, &expected) {
                        Ok(response) => Ok(MessageType::Response(response)),
                        Err(e) => Err(e),
                    }
                },
            }
        } else if bytes_equal(kind, ERROR_TYPE_KEY.as_bytes()) {
            Err(read_error(message, trans_id))
        } else {
            Err(invalid_message(Side::Request, trans_id, Detail::UnknownType))
        }
    }
}

} // verus!
