//! The bundle model carried through a conformant wire encoder: messages come
//! out of the encoded bundle in exactly the order the operations were
//! invoked, with their addresses and arguments intact.

use methcla_client::{Allocator, Arg, Bundle, Group, NodePlacement, Request, Time};
use rosc::{OscBundle, OscMessage, OscPacket, OscTime, OscType};

fn to_osc(bundle: &Bundle) -> OscPacket {
    let content = bundle
        .content
        .iter()
        .map(|m| {
            OscPacket::Message(OscMessage {
                addr: m.addr.as_str().to_string(),
                args: m
                    .args
                    .iter()
                    .map(|a| match a {
                        Arg::Int(i) => OscType::Int(*i),
                        Arg::Float(bits) => OscType::Float(f32::from_bits(*bits)),
                        Arg::Str(s) => OscType::String(s.clone()),
                    })
                    .collect(),
            })
        })
        .collect();
    OscPacket::Bundle(OscBundle {
        timetag: OscTime {
            seconds: bundle.time.seconds,
            fractional: bundle.time.fraction,
        },
        content,
    })
}

#[test]
fn encoded_bundle_keeps_message_order_and_content() {
    let mut node_pool = Allocator::with_capacity(8);
    node_pool.allocate().unwrap();
    let root = Group::from_i32(0);
    let mut req = Request::at(
        Time { seconds: 7, fraction: 0x8000_0000 },
        node_pool,
        Allocator::with_capacity(8),
    );

    let g = req.group(&NodePlacement::head(&root)).unwrap();
    let s = req
        .synth("sine", &NodePlacement::tail(&g), &vec![440.0f32.to_bits()], None)
        .unwrap();
    req.activate(&s);
    req.free(&s);

    let (bundle, _, _) = req.into_parts();
    let bytes = rosc::encoder::encode(&to_osc(&bundle)).unwrap();
    let (rest, decoded) = rosc::decoder::decode_udp(&bytes).unwrap();
    assert!(rest.is_empty());

    let decoded_bundle = match decoded {
        OscPacket::Bundle(b) => b,
        OscPacket::Message(_) => panic!("expected a bundle"),
    };
    assert_eq!(decoded_bundle.timetag.seconds, 7);
    assert_eq!(decoded_bundle.timetag.fractional, 0x8000_0000);

    let addrs: Vec<String> = decoded_bundle
        .content
        .iter()
        .map(|p| match p {
            OscPacket::Message(m) => m.addr.clone(),
            OscPacket::Bundle(_) => panic!("expected flat messages"),
        })
        .collect();
    assert_eq!(
        addrs,
        vec![
            "/group/new".to_string(),
            "/synth/new".to_string(),
            "/synth/activate".to_string(),
            "/node/free".to_string(),
        ]
    );

    // The synth message survives encoding with name, ids, relation and
    // control intact.
    if let OscPacket::Message(m) = &decoded_bundle.content[1] {
        assert_eq!(
            m.args,
            vec![
                OscType::String("sine".to_string()),
                OscType::Int(2),
                OscType::Int(1),
                OscType::Int(1),
                OscType::Float(440.0),
            ]
        );
    } else {
        panic!("expected a message");
    }
}
