use std::sync::mpsc;

use pulsebridge::pipeline_cache::{PipelineCache, MAX_CACHED_PIPELINES};
use pulsebridge::scene_shader::SceneKey;

type Compiled = (SceneKey, Result<String, String>);

/// Drives the cache the way the renderer does each frame: take a finished
/// compilation if one came back, then visit the two scenes the frame draws.
struct Pipelines {
    requests: mpsc::SyncSender<SceneKey>,
    results: mpsc::Receiver<Compiled>,
    cache: PipelineCache<String>,
}

impl Pipelines {
    fn get(&mut self, keys: [SceneKey; 2]) -> Result<Option<[String; 2]>, String> {
        match self.results.try_recv() {
            Err(mpsc::TryRecvError::Disconnected) => {
                return Err("GPU_SCENE_COMPILER_FAILED: compiler worker exited".into())
            }
            Err(mpsc::TryRecvError::Empty) => {}
            Ok((key, result)) => self.cache.complete(key, result, keys[0], keys[1])?,
        }
        self.cache.begin_frame();
        for key in keys {
            if self.cache.visit(key) {
                self.requests.try_send(key).map_err(|error| format!("GPU_SCENE_COMPILER_FAILED: {error}"))?;
                self.cache.mark_pending(key);
            }
        }
        Ok(self.cache.pipelines(keys[0], keys[1]).map(|(a, b)| [a.clone(), b.clone()]))
    }
}

#[test]
fn changing_scenes_cannot_queue_more_work_behind_a_blocked_compiler() {
    let (requests, jobs) = mpsc::sync_channel(1);
    let (completed, results) = mpsc::channel();
    let mut cache = Pipelines { requests, results, cache: PipelineCache::new() };
    assert!(cache.get([SceneKey::Held(0), SceneKey::Held(33)]).unwrap().is_none());
    assert_eq!(jobs.try_recv().unwrap(), SceneKey::Held(0));
    for id in 1..=52 {
        assert!(cache.get([SceneKey::Held(id); 2]).unwrap().is_none());
        assert_eq!(jobs.try_recv(), Err(mpsc::TryRecvError::Empty));
    }
    completed.send((SceneKey::Held(0), Err("driver rejected the scene".into()))).unwrap();
    assert_eq!(cache.get([SceneKey::Held(1); 2]).unwrap_err(), "driver rejected the scene");
    drop(completed);
    assert!(cache.get([SceneKey::Held(1); 2]).unwrap_err().contains("compiler worker exited"));
}

#[test]
fn compiled_scenes_are_drawn_once_both_are_cached() {
    let mut cache = PipelineCache::new();
    cache.begin_frame();
    assert!(cache.visit(SceneKey::Held(3)));
    cache.mark_pending(SceneKey::Held(3));
    assert!(!cache.visit(SceneKey::Held(4)));
    assert_eq!(cache.pending(), Some(SceneKey::Held(3)));
    let (a, b) = (SceneKey::Held(3), SceneKey::Held(4));
    cache.complete(a, Ok("three".to_string()), a, b).unwrap();
    assert_eq!(cache.pending(), None);
    assert!(cache.pipelines(a, b).is_none());
    cache.begin_frame();
    assert!(!cache.visit(a));
    assert!(cache.visit(b));
    cache.mark_pending(b);
    cache.complete(b, Ok("four".to_string()), a, b).unwrap();
    let (first, second) = cache.pipelines(a, b).unwrap();
    assert_eq!((first.as_str(), second.as_str()), ("three", "four"));
}

#[test]
fn a_full_cache_drops_the_least_recently_used_scene() {
    let mut cache = PipelineCache::new();
    for id in 0..MAX_CACHED_PIPELINES as u32 {
        cache.begin_frame();
        let key = SceneKey::Held(id);
        cache.complete(key, Ok(format!("scene {id}")), key, key).unwrap();
    }
    assert_eq!(cache.len(), MAX_CACHED_PIPELINES);
    // Scene 0 is used again, so scene 1 becomes the oldest.
    cache.begin_frame();
    assert!(!cache.visit(SceneKey::Held(0)));
    let fresh = SceneKey::Held(40);
    cache.complete(fresh, Ok("new".to_string()), fresh, fresh).unwrap();
    assert_eq!(cache.len(), MAX_CACHED_PIPELINES);
    assert!(cache.contains(SceneKey::Held(0)));
    assert!(!cache.contains(SceneKey::Held(1)));
    assert!(cache.contains(fresh));
}

#[test]
fn needed_scenes_are_not_evicted_and_recompiles_replace() {
    let mut cache = PipelineCache::new();
    for id in 0..MAX_CACHED_PIPELINES as u32 {
        cache.begin_frame();
        let key = SceneKey::Held(id);
        cache.complete(key, Ok(format!("scene {id}")), key, key).unwrap();
    }
    let (a, b) = (SceneKey::Held(0), SceneKey::Held(1));
    let fresh = SceneKey::Collection(2, 3);
    cache.complete(fresh, Err("rejected".to_string()), a, b).unwrap_err();
    assert!(cache.contains(a) && cache.contains(b));
    assert!(!cache.contains(SceneKey::Held(2)));
    assert_eq!(cache.len(), MAX_CACHED_PIPELINES - 1);
    cache.complete(a, Ok("again".to_string()), a, b).unwrap();
    assert_eq!(cache.len(), MAX_CACHED_PIPELINES - 1);
    assert_eq!(cache.pipelines(a, a).unwrap().0, "again");
    assert!(!cache.needs_compile(a));
    assert!(cache.needs_compile(fresh));
}
