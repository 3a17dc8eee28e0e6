use iupitermag::trace::assemble_trace;

#[test]
fn seed_sits_between_reversed_and_forward_branches() {
    let back = vec![1, 2, 3];
    let fwd = vec![4, 5];
    let trace = assemble_trace(&back, 0, &fwd);
    assert_eq!(trace, vec![3, 2, 1, 0, 4, 5]);
    assert_eq!(trace[back.len()], 0);
}

#[test]
fn empty_branches_leave_only_the_seed() {
    let trace = assemble_trace::<i32>(&Vec::new(), 7, &Vec::new());
    assert_eq!(trace, vec![7]);
}

#[test]
fn one_sided_traces_keep_the_seed_at_the_edge() {
    let trace = assemble_trace(&Vec::new(), 0, &vec![4, 5]);
    assert_eq!(trace, vec![0, 4, 5]);
    let trace = assemble_trace(&vec![1, 2, 3], 0, &Vec::new());
    assert_eq!(trace, vec![3, 2, 1, 0]);
}

#[test]
fn stop_condition_holds_only_at_the_ends() {
    // Each branch halts exactly at its last point (here: inside the unit
    // sphere); in the assembled polyline that condition holds at the two
    // ends and nowhere else.
    let stop = |p: &[f64; 3]| p[0] * p[0] + p[1] * p[1] + p[2] * p[2] < 1.0;
    let back = vec![[2.0, 0.0, 0.0], [0.5, 0.0, 0.0]];
    let fwd = vec![[3.0, 0.0, 0.0], [4.0, 0.0, 0.0], [0.2, 0.0, 0.0]];
    let trace = assemble_trace(&back, [6.0, 0.0, 0.0], &fwd);
    for (k, p) in trace.iter().enumerate() {
        let is_end = k == 0 || k == trace.len() - 1;
        assert_eq!(stop(p), is_end);
    }
}

#[test]
fn assembles_cartesian_points() {
    let back = vec![[6.5, 0.0, 0.4], [6.2, 0.0, 0.2]];
    let seed = [6.0, 0.0, 0.0];
    let fwd = vec![[5.8, 0.0, -0.2]];
    let trace = assemble_trace(&back, seed, &fwd);
    assert_eq!(
        trace,
        vec![
            [6.2, 0.0, 0.2],
            [6.5, 0.0, 0.4],
            [6.0, 0.0, 0.0],
            [5.8, 0.0, -0.2],
        ]
    );
}
