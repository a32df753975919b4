//! The memoized compiler.

use xabe_cuda::kernels::ptx::{compile, is_cached, nvrtc_invocations, record, PtxCache};

const TRIVIAL: &str = r#"
extern "C" __global__ void ptx_cache_probe(float* out) { out[threadIdx.x] = 1.0f; }
"#;

#[test]
fn compiling_the_same_source_twice_invokes_nvrtc_once() {
    let mut cache = PtxCache::new();
    assert!(
        !is_cached(&cache, TRIVIAL),
        "this source is unique to this test and must start uncached",
    );
    let answer = Ok(".visible .entry ptx_cache_probe(".to_string());
    let first = record(&mut cache, TRIVIAL, "ptx_cache_probe", answer).unwrap();
    assert!(
        is_cached(&cache, TRIVIAL),
        "a successful compile must populate the cache, or nothing is memoized",
    );
    let second =
        compile(&mut cache, TRIVIAL, "a_different_name").expect("cached compile cannot fail");
    assert_eq!(
        first, second,
        "a cache hit must return what the compile returned",
    );
    assert_eq!(nvrtc_invocations(&cache), 1);
}

#[test]
fn a_different_source_is_not_served_from_another_sources_entry() {
    let a = "extern \"C\" __global__ void probe_a(float* o) { o[0] = 1.0f; }";
    let b = "extern \"C\" __global__ void probe_b(float* o) { o[0] = 2.0f; }";
    let mut cache = PtxCache::new();
    record(&mut cache, a, "probe_a", Ok(".entry probe_a".to_string())).unwrap();
    record(&mut cache, b, "probe_b", Ok(".entry probe_b".to_string())).unwrap();
    let (sa, sb) = (
        compile(&mut cache, a, "probe_a").unwrap(),
        compile(&mut cache, b, "probe_b").unwrap(),
    );
    assert_ne!(
        sa, sb,
        "distinct sources must not collide in the cache; if they do, the \
         key is wrong and every kernel is a coin flip",
    );
    assert!(sa.contains("probe_a") && sb.contains("probe_b"));
    assert_eq!(nvrtc_invocations(&cache), 2);
}

#[test]
fn a_failure_is_reported_behind_the_kernels_name_and_not_kept() {
    let mut cache = PtxCache::new();
    let err = record(&mut cache, "int", "broken", Err("NVRTC_ERROR_COMPILATION".to_string()))
        .unwrap_err();
    assert_eq!(err, "broken: NVRTC_ERROR_COMPILATION");
    assert!(!is_cached(&cache, "int"));
    assert_eq!(nvrtc_invocations(&cache), 1);
    record(&mut cache, "int", "broken", Ok("ptx".to_string())).unwrap();
    assert_eq!(cache.get("int").unwrap(), "ptx");
    assert_eq!(nvrtc_invocations(&cache), 2);
}

#[test]
fn invocations_grow_by_the_misses_and_hits_add_nothing() {
    let mut cache = PtxCache::new();
    let answers = [("a", true), ("b", false), ("a", true), ("b", true), ("b", true)];
    let mut misses = 0;
    for (src, compiles) in answers {
        if is_cached(&cache, src) {
            compile(&mut cache, src, "probe").unwrap();
        } else {
            misses += 1;
            let answer = if compiles { Ok(src.to_string()) } else { Err("no".to_string()) };
            let _ = record(&mut cache, src, "probe", answer);
        }
        assert_eq!(nvrtc_invocations(&cache), misses);
    }
    assert_eq!(misses, 3);
}

#[test]
fn a_fork_starts_uncounted_and_joins_what_it_gained() {
    let mut cache = PtxCache::new();
    record(&mut cache, "a", "a", Ok("ptx a".to_string())).unwrap();
    let mut first = cache.fork();
    let mut second = cache.fork();
    assert_eq!(first.get("a").unwrap(), "ptx a");
    assert_eq!(nvrtc_invocations(&first), 0);
    record(&mut first, "b", "b", Ok("ptx b".to_string())).unwrap();
    record(&mut second, "b", "b", Ok("ptx b again".to_string())).unwrap();
    assert!(record(&mut second, "c", "c", Err("no".to_string())).is_err());
    assert!(!is_cached(&cache, "b"));
    cache.join(&first);
    assert_eq!((cache.get("b").unwrap().as_str(), nvrtc_invocations(&cache)), ("ptx b", 2));
    cache.join(&second);
    assert_eq!((cache.get("b").unwrap().as_str(), nvrtc_invocations(&cache)), ("ptx b again", 4));
    assert_eq!(cache.get("a").unwrap(), "ptx a");
    assert!(!is_cached(&cache, "c"));
}

#[test]
fn recording_a_held_source_replaces_its_entry() {
    let mut cache = PtxCache::new();
    record(&mut cache, "a", "a", Ok("one".to_string())).unwrap();
    record(&mut cache, "b", "b", Ok("two".to_string())).unwrap();
    record(&mut cache, "a", "a", Ok("three".to_string())).unwrap();
    assert_eq!(cache.get("a").unwrap(), "three");
    assert_eq!(cache.get("b").unwrap(), "two");
    assert_eq!(nvrtc_invocations(&cache), 3);
}
