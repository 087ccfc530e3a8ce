use wasi_sandbox::targets::{
    artifact_plan, fixed_targets, Architecture, OperatingSystem, TargetDescriptor,
};

#[test]
fn fixed_list_has_three_arm64_targets() {
    let targets = fixed_targets();
    assert_eq!(targets.len(), 3);
    assert_eq!(targets[0], TargetDescriptor::baseline(Architecture::Arm64, OperatingSystem::MacOs));
    assert_eq!(
        targets[1],
        TargetDescriptor::baseline(Architecture::Arm64, OperatingSystem::Android)
    );
    assert_eq!(targets[2], TargetDescriptor::baseline(Architecture::Arm64, OperatingSystem::Ios));
    for target in targets {
        assert_eq!(target.architecture, Architecture::Arm64);
        assert!(target.cpu_features.is_empty());
    }
}

#[test]
fn triples_of_the_fixed_targets() {
    let triples: Vec<&str> = fixed_targets().iter().map(|target| target.triple()).collect();
    assert_eq!(
        triples,
        ["aarch64-apple-darwin", "aarch64-linux-android", "aarch64-apple-ios"]
    );
}

#[test]
fn tags_of_the_fixed_targets() {
    let tags: Vec<&str> = fixed_targets().iter().map(|target| target.tag()).collect();
    assert_eq!(tags, ["arm64", "android", "ios"]);
}

#[test]
fn artifact_name_is_prefix_tag_extension() {
    let targets = fixed_targets();
    assert_eq!(targets[0].artifact_path("/work/fib"), "/work/fib.arm64.wasmu");
    assert_eq!(targets[1].artifact_path("/work/fib"), "/work/fib.android.wasmu");
    assert_eq!(targets[2].artifact_path("/work/fib"), "/work/fib.ios.wasmu");
    assert_eq!(targets[2].artifact_path(""), ".ios.wasmu");
    assert_eq!(targets[0].artifact_path("a.b"), "a.b.arm64.wasmu");
}

#[test]
fn plan_names_one_artifact_for_each_target() {
    let plan = artifact_plan("out/mandelbrot");
    let targets = fixed_targets();
    assert_eq!(plan.len(), 3);
    for (entry, target) in plan.iter().zip(targets.iter()) {
        assert_eq!(&entry.0, target);
        assert_eq!(entry.1, target.artifact_path("out/mandelbrot"));
    }
    assert_eq!(plan[0].1, "out/mandelbrot.arm64.wasmu");
    assert_eq!(plan[1].1, "out/mandelbrot.android.wasmu");
    assert_eq!(plan[2].1, "out/mandelbrot.ios.wasmu");
}

#[test]
fn artifact_names_tell_the_targets_apart() {
    let plan = artifact_plan("p");
    assert_ne!(plan[0].1, plan[1].1);
    assert_ne!(plan[0].1, plan[2].1);
    assert_ne!(plan[1].1, plan[2].1);
}

#[test]
fn triples_are_known_to_the_runtime() {
    for target in fixed_targets() {
        let triple: wasmer::Triple = target.triple().parse().unwrap();
        assert_eq!(triple.architecture.to_string(), "aarch64");
        assert_eq!(triple.to_string(), target.triple());
    }
}
