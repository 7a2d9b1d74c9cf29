use methcla_client::{
    Address, Allocator, Arg, Group, NodePlacement, Relation, Request, Time,
};

#[test]
fn end_to_end_group_synth_free_and_reuse() {
    // The engine's root group pre-exists under id 0, so the node pool hands
    // that id out before the bundle is opened.
    let mut node_pool = Allocator::with_capacity(3);
    let root_id = node_pool.allocate().unwrap();
    assert_eq!(root_id, 0);
    let root = Group::from_i32(root_id);
    let bus_pool = Allocator::with_capacity(3);

    let mut req = Request::at(Time { seconds: 0, fraction: 0 }, node_pool, bus_pool);

    let group1 = req.group(&NodePlacement::head(&root)).unwrap();
    assert_eq!(group1.0, 1);

    let controls = vec![440.0f32.to_bits(), 0.5f32.to_bits()];
    let synth2 = req
        .synth("sine", &NodePlacement::head(&group1), &controls, None)
        .unwrap();
    assert_eq!(synth2.0, 2);

    req.free(&synth2);

    let (bundle, mut nodes, _) = req.into_parts();

    // /group/new [1, 0, headOfGroup]
    assert_eq!(bundle.content[0].addr, Address::GroupNew);
    assert_eq!(
        bundle.content[0].args,
        vec![Arg::Int(1), Arg::Int(0), Arg::Int(Relation::HeadOfGroup.code())]
    );

    // /synth/new ["sine", 2, 1, headOfGroup, 440.0, 0.5]
    assert_eq!(bundle.content[1].addr, Address::SynthNew);
    assert_eq!(
        bundle.content[1].args,
        vec![
            Arg::Str("sine".to_string()),
            Arg::Int(2),
            Arg::Int(1),
            Arg::Int(Relation::HeadOfGroup.code()),
            Arg::Float(440.0f32.to_bits()),
            Arg::Float(0.5f32.to_bits()),
        ]
    );

    // /node/free [2]
    assert_eq!(bundle.content[2].addr, Address::NodeFree);
    assert_eq!(bundle.content[2].args, vec![Arg::Int(2)]);

    // The freed id is handed out again by the next allocation.
    assert_eq!(nodes.allocate().unwrap(), 2);
}

#[test]
fn before_and_after_emit_distinct_relations() {
    let node = Group::from_i32(5);
    let before = NodePlacement::before(&node);
    let after = NodePlacement::after(&node);
    assert_eq!(before.target.0, 5);
    assert_eq!(after.target.0, 5);
    assert_ne!(before.placement, after.placement);
    assert_ne!(before.placement.code(), after.placement.code());
}

#[test]
fn placements_carry_their_targets_and_relations() {
    let group = Group::from_i32(4);
    assert_eq!(NodePlacement::head(&group).placement, Relation::HeadOfGroup);
    assert_eq!(NodePlacement::tail(&group).placement, Relation::TailOfGroup);
    assert_eq!(NodePlacement::before(&group).placement, Relation::BeforeNode);
    assert_eq!(NodePlacement::after(&group).placement, Relation::AfterNode);
    // All four relation codes are pairwise distinct on the wire.
    let codes = [
        Relation::HeadOfGroup.code(),
        Relation::TailOfGroup.code(),
        Relation::BeforeNode.code(),
        Relation::AfterNode.code(),
    ];
    for i in 0..codes.len() {
        for j in 0..codes.len() {
            if i != j {
                assert_ne!(codes[i], codes[j]);
            }
        }
    }
}
