use numaflow_core::models::pipeline_spec::PipelineSpec;
use numaflow_core::objects::watermark::{Heartbeat, Wmb};

#[test]
fn pipeline_spec_new_is_empty() {
    let spec = PipelineSpec::new();
    assert!(spec.edges.is_none());
    assert!(spec.inter_step_buffer.is_none());
    assert!(spec.inter_step_buffer_service_name.is_none());
    assert!(spec.lifecycle.is_none());
    assert!(spec.limits.is_none());
    assert!(spec.side_inputs.is_none());
    assert!(spec.templates.is_none());
    assert!(spec.vertices.is_none());
    assert!(spec.watermark.is_none());
    assert_eq!(spec.clone(), spec);
}

#[test]
fn wmb_default_is_zero() {
    let w = Wmb::default();
    assert_eq!(w, Wmb { idle: false, offset: 0, watermark: 0, partition: 0 });
    let w2 = Wmb { idle: true, offset: 5, watermark: 1700000000000, partition: 2 };
    let copy = w2;
    assert_eq!(copy, w2);
}

#[test]
fn heartbeat_default_is_zero() {
    assert_eq!(Heartbeat::default(), Heartbeat { heartbeat: 0 });
}
