use bip::umio::buffer::{Buffer, BufferPool};
use bip::umio::dispatcher::{DispatchHandler, Dispatcher, EventSet, ReadyPlan, UDP_SOCKET_TOKEN};
use bip::umio::provider::{Action, Provider, QueueFull};
use bip::util::net::SocketAddr;
use bip::util::test::{dummy_block_socket_addrs, dummy_socket_addr_v4};

#[test]
fn buffer_counts_what_was_written() {
    let mut buffer = Buffer::new(4);
    assert_eq!(buffer.capacity(), 4);
    assert_eq!(buffer.written(), 0);
    assert_eq!(buffer.write(b"ab"), 2);
    assert_eq!(buffer.as_ref(), b"ab");
    assert_eq!(buffer.write(b"cdef"), 2);
    assert_eq!(buffer.as_ref(), b"abcd");
    assert_eq!(buffer.write(b"x"), 0);
    assert!(buffer.set_written(1));
    assert_eq!(buffer.as_ref(), b"a");
    assert!(!buffer.set_written(5));
    assert_eq!(buffer.as_ref(), b"a");
    assert!(buffer.set_written(4));
    assert_eq!(buffer.as_ref(), b"abcd");
    buffer.reset();
    assert_eq!(buffer.written(), 0);
    assert!(buffer.set_written(4));
    assert_eq!(buffer.as_ref(), &[0, 0, 0, 0]);
}

#[test]
fn pool_grows_on_demand_and_hands_out_fresh_buffers() {
    let mut pool = BufferPool::new(8);
    assert_eq!(pool.len(), 0);
    let mut buffer = pool.pop();
    assert_eq!(pool.len(), 0);
    assert_eq!(buffer.capacity(), 8);
    buffer.write(b"used");
    pool.push(buffer);
    assert_eq!(pool.len(), 1);
    let mut again = pool.pop();
    assert_eq!(pool.len(), 0);
    assert_eq!(again.written(), 0);
    assert!(again.set_written(8));
    assert_eq!(again.as_ref(), &[0u8; 8]);
    pool.push(Buffer::new(3));
    assert_eq!(pool.pop().capacity(), 8);
}

#[test]
fn provider_queues_in_order_up_to_its_cap() {
    let mut provider: Provider<u8, u8> = Provider::new(16, 2);
    let addrs = dummy_block_socket_addrs(3);
    for (i, addr) in addrs.iter().enumerate() {
        let mut buffer = provider.take_buffer();
        buffer.write(&[i as u8]);
        let sent = provider.send(buffer, *addr);
        if i < 2 {
            assert_eq!(sent, Ok(()));
        } else {
            assert_eq!(sent, Err(QueueFull));
        }
    }
    assert_eq!(provider.queue_len(), 2);
    assert_eq!(provider.pool_size(), 1);
    assert_eq!(provider.next_datagram(), Some((&[0u8][..], addrs[0])));
    assert!(provider.pop_datagram());
    assert_eq!(provider.next_datagram(), Some((&[1u8][..], addrs[1])));
    assert!(provider.pop_datagram());
    assert_eq!(provider.next_datagram(), None);
    assert!(!provider.pop_datagram());
    assert_eq!(provider.pool_size(), 3);
}

#[test]
fn provider_records_actions_for_the_loop() {
    let mut provider: Provider<&str, u32> = Provider::new(16, 2);
    assert_eq!(provider.set_timeout("first", 100), 0);
    assert_eq!(provider.set_timeout("second", 200), 1);
    provider.clear_timeout(0);
    provider.notify(7);
    provider.shutdown();
    let actions = provider.take_actions();
    assert_eq!(actions.len(), 5);
    assert!(matches!(actions[0], Action::SetTimeout { token: 0, timeout: "first", delay_ms: 100 }));
    assert!(matches!(actions[1], Action::SetTimeout { token: 1, timeout: "second", delay_ms: 200 }));
    assert!(matches!(actions[2], Action::ClearTimeout { token: 0 }));
    assert!(matches!(actions[3], Action::Notify { message: 7 }));
    assert!(matches!(actions[4], Action::Shutdown));
    assert!(provider.take_actions().is_empty());
    assert_eq!(provider.set_timeout("third", 1), 2);
}

struct Echo {
    seen: Vec<(Vec<u8>, SocketAddr)>,
    notes: Vec<u32>,
    timeouts: Vec<u8>,
}

impl Dispatcher for Echo {
    type Timeout = u8;
    type Message = u32;

    fn incoming(&mut self, provider: &mut Provider<u8, u32>, message: &[u8], addr: SocketAddr) {
        self.seen.push((message.to_vec(), addr));
        let mut reply = provider.take_buffer();
        reply.write(message);
        provider.send(reply, addr).unwrap();
    }

    fn notify(&mut self, provider: &mut Provider<u8, u32>, message: u32) {
        self.notes.push(message);
        provider.set_timeout(9, 50);
    }

    fn timeout(&mut self, _provider: &mut Provider<u8, u32>, timeout: u8) {
        self.timeouts.push(timeout);
    }
}

struct Silent;

impl Dispatcher for Silent {
    type Timeout = ();
    type Message = ();
}

#[test]
fn dispatcher_serves_reads_and_writes() {
    let echo = Echo { seen: vec![], notes: vec![], timeouts: vec![] };
    let mut handler = DispatchHandler::new(8, 4, echo);
    let addr = dummy_socket_addr_v4();
    assert_eq!(handler.tick(), EventSet::readable());

    handler.handle_read(Some((b"ping", addr)));
    assert_eq!(handler.dispatch.seen, vec![(b"ping".to_vec(), addr)]);
    assert_eq!(handler.provider.queue_len(), 1);
    assert_eq!(handler.provider.pool_size(), 1);
    assert_eq!(handler.tick(), EventSet { readable: true, writable: true });

    assert_eq!(handler.next_datagram(), Some((&b"ping"[..], addr)));
    handler.handle_write();
    assert_eq!(handler.next_datagram(), None);
    assert_eq!(handler.provider.pool_size(), 2);
    assert_eq!(handler.tick(), EventSet::readable());
    handler.handle_write();
    assert_eq!(handler.provider.pool_size(), 2);

    handler.handle_read(None);
    assert_eq!(handler.dispatch.seen.len(), 1);
    assert_eq!(handler.provider.pool_size(), 2);
}

#[test]
fn datagrams_longer_than_a_buffer_are_cut() {
    let echo = Echo { seen: vec![], notes: vec![], timeouts: vec![] };
    let mut handler = DispatchHandler::new(4, 4, echo);
    handler.handle_read(Some((b"too long", dummy_socket_addr_v4())));
    assert_eq!(handler.dispatch.seen[0].0, b"too ".to_vec());
}

#[test]
fn dispatcher_hands_on_notifications_and_timeouts() {
    let echo = Echo { seen: vec![], notes: vec![], timeouts: vec![] };
    let mut handler = DispatchHandler::new(8, 4, echo);
    handler.notify(5);
    handler.timeout(3);
    assert_eq!(handler.dispatch.notes, vec![5]);
    assert_eq!(handler.dispatch.timeouts, vec![3]);
    let actions = handler.take_actions();
    assert_eq!(actions.len(), 1);
    assert!(matches!(actions[0], Action::SetTimeout { token: 0, timeout: 9, delay_ms: 50 }));
}

#[test]
fn ready_plans_for_the_socket_only() {
    let handler = DispatchHandler::new(8, 4, Silent);
    let both = EventSet::readable().or(EventSet::writable());
    assert_eq!(handler.ready(UDP_SOCKET_TOKEN, both), ReadyPlan { write: true, read: true });
    assert_eq!(
        handler.ready(UDP_SOCKET_TOKEN, EventSet::readable()),
        ReadyPlan { write: false, read: true }
    );
    assert_eq!(
        handler.ready(UDP_SOCKET_TOKEN, EventSet::writable()),
        ReadyPlan { write: true, read: false }
    );
    assert_eq!(handler.ready(3, both), ReadyPlan { write: false, read: false });
    assert!(EventSet::readable().is_readable());
    assert!(!EventSet::readable().is_writable());
}

#[test]
fn a_silent_handler_leaves_everything_as_it_is() {
    let mut handler = DispatchHandler::new(8, 4, Silent);
    handler.handle_read(Some((b"x", dummy_socket_addr_v4())));
    handler.notify(());
    handler.timeout(());
    assert_eq!(handler.provider.queue_len(), 0);
    assert_eq!(handler.provider.pool_size(), 1);
    assert!(handler.take_actions().is_empty());
}
