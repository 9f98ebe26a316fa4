use cudarc_graph::call::{capture_status_of, completion, node_count_of, nodes_of, BoundCall};
use cudarc_graph::capture::EndCapture;
use cudarc_graph::driver::{DriverCall, DriverError, DriverReply, CUDA_ERROR_INVALID_VALUE};
use cudarc_graph::graph::{CudaGraph, CudaStream, UpdateOutcome};
use cudarc_graph::node_types::NodeTypes;
use cudarc_graph::recapture::{updated_in_place, Recapture};
use cudarc_graph::teardown::Teardown;

fn ok(out: u64) -> DriverReply {
    DriverReply::new(0, out)
}

fn fail(status: u32) -> DriverReply {
    DriverReply::new(status, 0)
}

fn run_end_capture(mut m: EndCapture, replies: Vec<DriverReply>) -> (EndCapture, Vec<DriverCall>) {
    let mut made = Vec::new();
    for reply in replies {
        match m.pending() {
            Some(call) => made.push(call),
            None => break,
        }
        m = m.step(reply);
    }
    (m, made)
}

fn run_recapture(mut m: Recapture, replies: Vec<DriverReply>) -> (Recapture, Vec<DriverCall>) {
    let mut made = Vec::new();
    for reply in replies {
        match m.pending() {
            Some(call) => made.push(call),
            None => break,
        }
        m = m.step(reply);
    }
    (m, made)
}

fn run_call(mut m: BoundCall, replies: Vec<DriverReply>) -> (BoundCall, Vec<DriverCall>) {
    let mut made = Vec::new();
    for reply in replies {
        match m.pending() {
            Some(call) => made.push(call),
            None => break,
        }
        m = m.step(reply);
    }
    (m, made)
}

/// A graph captured on stream 7, holding `CUgraph` 100 and `CUgraphExec` 200.
fn captured_graph() -> CudaGraph {
    let stream = CudaStream::new(7);
    let (m, _) = run_end_capture(stream.end_capture(0), vec![ok(0), ok(100), ok(200)]);
    m.into_result().unwrap().unwrap().unwrap()
}

#[test]
fn end_capture_instantiates_the_captured_graph() {
    let stream = CudaStream::new(7);
    let (m, made) = run_end_capture(stream.end_capture(8), vec![ok(0), ok(100), ok(200)]);
    assert_eq!(
        made,
        vec![
            DriverCall::BindContext,
            DriverCall::EndCapture { stream: 7 },
            DriverCall::Instantiate { graph: 100, flags: 8 },
        ]
    );
    let graph = m.into_result().unwrap().unwrap().unwrap();
    assert_eq!(graph.cu_graph(), 100);
    assert_eq!(graph.cu_graph_exec(), 200);
    assert_eq!(graph.stream().cu_stream(), 7);
}

#[test]
fn end_capture_without_graph_gives_none() {
    let stream = CudaStream::new(7);
    let (m, made) = run_end_capture(stream.end_capture(0), vec![ok(0), ok(0), ok(200)]);
    assert_eq!(made, vec![DriverCall::BindContext, DriverCall::EndCapture { stream: 7 }]);
    assert!(matches!(m.into_result(), Some(Ok(None))));
}

#[test]
fn end_capture_fails_with_the_first_error() {
    let stream = CudaStream::new(7);
    let (m, made) = run_end_capture(stream.end_capture(0), vec![fail(201)]);
    assert_eq!(made, vec![DriverCall::BindContext]);
    assert_eq!(m.into_result().unwrap().unwrap_err(), DriverError(201));

    let (m, _) = run_end_capture(stream.end_capture(0), vec![ok(0), fail(900)]);
    assert_eq!(m.into_result().unwrap().unwrap_err(), DriverError(900));

    let (m, _) = run_end_capture(stream.end_capture(0), vec![ok(0), ok(100), fail(2)]);
    assert_eq!(m.into_result().unwrap().unwrap_err(), DriverError(2));
}

#[test]
fn end_capture_is_unfinished_until_every_reply_came() {
    let stream = CudaStream::new(7);
    let (m, _) = run_end_capture(stream.end_capture(0), vec![ok(0), ok(100)]);
    assert_eq!(m.pending(), Some(DriverCall::Instantiate { graph: 100, flags: 0 }));
    assert!(m.into_result().is_none());
}

#[test]
fn recapture_updates_in_place() {
    let graph = captured_graph();
    let (m, made) = run_recapture(graph.end_capture_or_reinstantiate(), vec![ok(0), ok(300), ok(0), ok(0)]);
    assert_eq!(
        made,
        vec![
            DriverCall::BindContext,
            DriverCall::EndCapture { stream: 7 },
            DriverCall::ExecUpdate { graph_exec: 200, graph: 300 },
            DriverCall::DestroyGraph { graph: 100 },
        ]
    );
    assert_eq!(m.pending(), None);
    let (graph, result) = m.into_parts();
    assert_eq!(result, Some(Ok(UpdateOutcome::Updated)));
    assert_eq!(graph.cu_graph(), 300);
    assert_eq!(graph.cu_graph_exec(), 200);
    assert_eq!(updated_in_place(result.unwrap()), Ok(true));
}

#[test]
fn recapture_reinstantiates_when_the_update_fails() {
    let graph = captured_graph();
    // The update call succeeds but reports a topology change (update result 2).
    let replies = vec![ok(0), ok(300), ok(2), ok(400), ok(0), ok(0)];
    let (m, made) = run_recapture(graph.end_capture_and_update(), replies);
    assert_eq!(
        made,
        vec![
            DriverCall::BindContext,
            DriverCall::EndCapture { stream: 7 },
            DriverCall::ExecUpdate { graph_exec: 200, graph: 300 },
            DriverCall::Instantiate { graph: 300, flags: 0 },
            DriverCall::DestroyExec { graph_exec: 200 },
            DriverCall::DestroyGraph { graph: 100 },
        ]
    );
    let (graph, result) = m.into_parts();
    assert_eq!(result, Some(Ok(UpdateOutcome::Reinstantiated)));
    assert_eq!(graph.cu_graph(), 300);
    assert_eq!(graph.cu_graph_exec(), 400);
    assert_eq!(updated_in_place(result.unwrap()), Ok(false));
}

#[test]
fn recapture_reinstantiates_when_the_update_call_errors() {
    let graph = captured_graph();
    // Errors of the two destroys of stale handles are ignored.
    let replies = vec![ok(0), ok(300), fail(700), ok(400), fail(9), fail(9)];
    let (m, _) = run_recapture(graph.end_capture_or_reinstantiate(), replies);
    let (graph, result) = m.into_parts();
    assert_eq!(result, Some(Ok(UpdateOutcome::Reinstantiated)));
    assert_eq!(graph.cu_graph(), 300);
    assert_eq!(graph.cu_graph_exec(), 400);
}

#[test]
fn failed_instantiation_discards_the_new_graph() {
    let graph = captured_graph();
    let replies = vec![ok(0), ok(300), ok(2), fail(999), ok(0)];
    let (m, made) = run_recapture(graph.end_capture_or_reinstantiate(), replies);
    assert_eq!(made[3], DriverCall::Instantiate { graph: 300, flags: 0 });
    assert_eq!(made[4], DriverCall::DestroyGraph { graph: 300 });
    assert_eq!(made.len(), 5);
    let (graph, result) = m.into_parts();
    assert_eq!(result, Some(Err(DriverError(999))));
    assert_eq!(graph.cu_graph(), 100);
    assert_eq!(graph.cu_graph_exec(), 200);
    assert_eq!(updated_in_place(result.unwrap()), Err(DriverError(999)));
}

#[test]
fn recapture_without_graph_is_an_invalid_value() {
    let graph = captured_graph();
    let (m, made) = run_recapture(graph.end_capture_and_update(), vec![ok(0), ok(0), ok(0)]);
    assert_eq!(made.len(), 2);
    let (graph, result) = m.into_parts();
    assert_eq!(result, Some(Err(DriverError(CUDA_ERROR_INVALID_VALUE))));
    assert_eq!(graph.cu_graph(), 100);
}

#[test]
fn failed_release_of_the_old_graph_keeps_the_graph() {
    let graph = captured_graph();
    let (m, _) = run_recapture(graph.end_capture_and_update(), vec![ok(0), ok(300), ok(0), fail(4)]);
    let (graph, result) = m.into_parts();
    assert_eq!(result, Some(Err(DriverError(4))));
    assert_eq!(graph.cu_graph(), 100);
    assert_eq!(graph.cu_graph_exec(), 200);
}

#[test]
fn recapture_bind_failure() {
    let graph = captured_graph();
    let (m, made) = run_recapture(graph.end_capture_and_update(), vec![fail(201), ok(300)]);
    assert_eq!(made, vec![DriverCall::BindContext]);
    assert_eq!(m.into_parts().1, Some(Err(DriverError(201))));
}

#[test]
fn drop_destroys_exec_then_graph_and_records_errors() {
    let graph = captured_graph();
    let mut m: Teardown = graph.teardown();
    let mut made = Vec::new();
    let mut recorded = Vec::new();
    for reply in vec![fail(5), ok(0), ok(0)] {
        match m.pending() {
            Some(call) => made.push(call),
            None => break,
        }
        let (next, error) = m.step(reply);
        m = next;
        if let Some(e) = error {
            recorded.push(e);
        }
    }
    assert_eq!(
        made,
        vec![DriverCall::DestroyExec { graph_exec: 200 }, DriverCall::DestroyGraph { graph: 100 }]
    );
    assert_eq!(recorded, vec![DriverError(5)]);
    assert_eq!(m.pending(), None);
}

#[test]
fn launch_and_upload_bind_then_call() {
    let graph = captured_graph();
    let (m, made) = run_call(graph.launch(), vec![ok(0), ok(0)]);
    assert_eq!(made, vec![DriverCall::BindContext, DriverCall::Launch { graph_exec: 200, stream: 7 }]);
    assert_eq!(completion(m.into_result().unwrap()), Ok(()));

    let (m, made) = run_call(graph.upload(), vec![fail(3), ok(0)]);
    assert_eq!(made, vec![DriverCall::BindContext]);
    assert_eq!(completion(m.into_result().unwrap()), Err(DriverError(3)));

    let (m, _) = run_call(graph.launch(), vec![ok(0), fail(400)]);
    assert_eq!(completion(m.into_result().unwrap()), Err(DriverError(400)));
}

#[test]
fn begin_capture_and_capture_status() {
    let stream = CudaStream::new(7);
    let (m, made) = run_call(stream.begin_capture(1), vec![ok(0), ok(0)]);
    assert_eq!(made, vec![DriverCall::BindContext, DriverCall::BeginCapture { stream: 7, mode: 1 }]);
    assert_eq!(completion(m.into_result().unwrap()), Ok(()));

    let (m, made) = run_call(stream.capture_status(), vec![ok(0), ok(1)]);
    assert_eq!(made[1], DriverCall::CaptureStatus { stream: 7 });
    assert_eq!(capture_status_of(m.into_result().unwrap()), Ok(1));
}

#[test]
fn num_nodes_reports_the_count() {
    let graph = captured_graph();
    let (m, made) = run_call(graph.num_nodes(), vec![ok(0), ok(42)]);
    assert_eq!(made[1], DriverCall::CountNodes { graph: 100 });
    assert_eq!(node_count_of(m.into_result().unwrap()), Ok(42));
}

#[test]
fn nodes_are_cut_to_the_reported_count() {
    let graph = captured_graph();
    let filled = DriverReply::with_nodes(0, 3, vec![11, 12, 13, 0, 0]);
    let (m, made) = run_call(graph.nodes(5), vec![ok(0), filled]);
    assert_eq!(made[1], DriverCall::GetNodes { graph: 100, cap: 5 });
    assert_eq!(nodes_of(m.into_result().unwrap(), 5), Ok(vec![11, 12, 13]));

    // A count past the array's end leaves the array whole.
    let filled = DriverReply::with_nodes(0, 9, vec![11, 12]);
    let (m, _) = run_call(graph.nodes(2), vec![ok(0), filled]);
    assert_eq!(nodes_of(m.into_result().unwrap(), 2), Ok(vec![11, 12]));

    let (m, _) = run_call(graph.nodes(2), vec![ok(0), DriverReply::with_nodes(8, 0, vec![0, 0])]);
    assert_eq!(nodes_of(m.into_result().unwrap(), 2), Err(DriverError(8)));
}

#[test]
fn node_types_in_node_order() {
    let graph = captured_graph();
    let mut m: NodeTypes = graph.node_types(&[11, 12, 13]);
    let mut made = Vec::new();
    for reply in vec![ok(0), ok(0), ok(1), ok(0)] {
        match m.pending() {
            Some(call) => made.push(call),
            None => break,
        }
        m = m.step(reply);
    }
    assert_eq!(
        made,
        vec![
            DriverCall::BindContext,
            DriverCall::NodeType { node: 11 },
            DriverCall::NodeType { node: 12 },
            DriverCall::NodeType { node: 13 },
        ]
    );
    assert_eq!(m.into_result(), Some(Ok(vec![0, 1, 0])));
}

#[test]
fn node_types_stop_at_the_first_failure() {
    let graph = captured_graph();
    let mut m: NodeTypes = graph.node_types(&[11, 12, 13]);
    let mut made = 0;
    for reply in vec![ok(0), ok(0), fail(400), ok(0)] {
        if m.pending().is_none() {
            break;
        }
        made += 1;
        m = m.step(reply);
    }
    assert_eq!(made, 3);
    assert_eq!(m.into_result(), Some(Err(DriverError(400))));

    let empty: NodeTypes = graph.node_types(&[]);
    let m = empty.step(ok(0));
    assert_eq!(m.pending(), None);
    assert_eq!(m.into_result(), Some(Ok(vec![])));
}

#[test]
fn nodes_never_exceed_cap() {
    let graph = captured_graph();
    let filled = DriverReply::with_nodes(0, 3, vec![11, 12, 13]);
    let (m, _) = run_call(graph.nodes(0), vec![ok(0), filled]);
    assert_eq!(nodes_of(m.into_result().unwrap(), 0), Ok(vec![]));

    let filled = DriverReply::with_nodes(0, 3, vec![11, 12, 13]);
    let (m, _) = run_call(graph.nodes(2), vec![ok(0), filled]);
    assert_eq!(nodes_of(m.into_result().unwrap(), 2), Ok(vec![11, 12]));
}

#[test]
fn kernel_node_params_bind_then_call() {
    let graph = captured_graph();
    let (m, made) = run_call(graph.kernel_node_get_params(11, 4096), vec![ok(0), ok(0)]);
    assert_eq!(
        made,
        vec![DriverCall::BindContext, DriverCall::KernelNodeGetParams { node: 11, params: 4096 }]
    );
    assert_eq!(completion(m.into_result().unwrap()), Ok(()));

    let (m, made) = run_call(graph.exec_kernel_node_set_params(11, 4096), vec![ok(0), fail(700)]);
    assert_eq!(
        made,
        vec![
            DriverCall::BindContext,
            DriverCall::ExecKernelNodeSetParams { graph_exec: 200, node: 11, params: 4096 },
        ]
    );
    assert_eq!(completion(m.into_result().unwrap()), Err(DriverError(700)));
    assert_eq!(graph.cu_graph_exec(), 200);
}
