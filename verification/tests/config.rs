use methcla_client::Options;

#[test]
fn default_options_are_cd_quality_with_modest_capacities() {
    let o = Options::default();
    assert_eq!(o.sample_rate, 44100);
    assert_eq!(o.block_size, 512);
    assert_eq!(o.realtime_memory_size, 1024 * 1024);
    assert_eq!(o.max_num_nodes, 1024);
    assert_eq!(o.max_num_audio_buses, 1024);
    assert_eq!(o.num_hardware_inputs, 2);
    assert_eq!(o.num_hardware_outputs, 2);
    assert!(o.plugin_directories.is_empty());
}

#[test]
fn pools_are_sized_from_the_configured_capacities() {
    let mut o = Options::default();
    o.max_num_nodes = 5;
    o.max_num_audio_buses = 3;
    let nodes = o.node_id_allocator();
    let buses = o.audio_bus_id_allocator();
    assert_eq!(nodes.capacity(), 5);
    assert_eq!(buses.capacity(), 3);
}
