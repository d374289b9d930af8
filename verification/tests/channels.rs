use syncprims::channel::avoid_brrow;
use syncprims::channel::mutex_chan;
use syncprims::channel::one_shot;
use syncprims::channel::safety;

#[test]
fn one_shot_delivers_exactly_what_was_sent() {
    let mut chan = one_shot::Channel::new();
    assert!(!chan.is_ready());
    chan.send("hello");
    assert!(chan.is_ready());
    assert_eq!(chan.receive(), "hello");
    assert!(!chan.is_ready());
}

#[test]
fn one_shot_unread_message_is_surrendered() {
    let mut chan = one_shot::Channel::new();
    chan.send("hello");
    // Tearing the channel down with the message unread hands it back for
    // destruction: nothing leaks.
    assert_eq!(chan.destroy(), Some("hello"));
}

#[test]
fn one_shot_empty_and_spent_channels_hold_nothing() {
    let chan: one_shot::Channel<u32> = one_shot::Channel::new();
    assert_eq!(chan.destroy(), None);
    let mut used = one_shot::Channel::new();
    used.send(9u32);
    assert_eq!(used.receive(), 9);
    assert_eq!(used.destroy(), None);
}

#[test]
fn avoid_brrow_channel_is_reusable() {
    let mut chan = avoid_brrow::Channel::new();
    let (sender, receiver) = chan.split();
    sender.send(&mut chan, "hello!");
    assert_eq!(receiver.receive(&mut chan), "hello!");
    let (sender, receiver) = chan.split();
    sender.send(&mut chan, "world!");
    assert_eq!(receiver.receive(&mut chan), "world!");
}

#[test]
fn avoid_brrow_split_discards_an_unread_message() {
    let mut chan = avoid_brrow::Channel::new();
    let (sender, receiver) = chan.split();
    sender.send(&mut chan, 7u32);
    // The handshake is abandoned: resetting the channel destroys the unread
    // message in place, and the new handshake starts empty.
    drop(receiver);
    let (sender, receiver) = chan.split();
    sender.send(&mut chan, 8u32);
    assert_eq!(receiver.receive(&mut chan), 8);
}

#[test]
fn safety_channel_handshake() {
    let (mut chan, sender, receiver) = safety::channel();
    assert!(!receiver.is_ready(&chan));
    sender.send(&mut chan, "hello world!");
    assert!(receiver.is_ready(&chan));
    assert_eq!(receiver.receive(&mut chan), "hello world!");
    assert_eq!(chan.destroy(), None);
}

#[test]
fn safety_channel_unread_message_is_surrendered() {
    let (mut chan, sender, receiver) = safety::channel();
    sender.send(&mut chan, vec![1u8, 2, 3]);
    drop(receiver);
    assert_eq!(chan.destroy(), Some(vec![1u8, 2, 3]));
}

#[test]
fn mutex_chan_queues_in_order() {
    let mut chan = mutex_chan::Channel::new();
    chan.send(1u32);
    chan.send(2u32);
    chan.send(3u32);
    assert_eq!(chan.receive(), 1);
    chan.send(4u32);
    assert_eq!(chan.receive(), 2);
    assert_eq!(chan.receive(), 3);
    assert_eq!(chan.receive(), 4);
}
