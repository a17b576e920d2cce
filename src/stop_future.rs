use vstd::prelude::*;

verus! {

/// Whether a polled future can go on.
#[derive(Clone, Copy, Debug, PartialEq, Eq, Structural)]
pub enum Readiness {
    Ready,
    Pending,
}

/// A container whose id becomes known only once another control path has created it.
#[derive(Clone, Debug)]
pub struct DockerContainerIdFuture {
    pub image_id: Option<String>,
    pub container_id: Option<String>,
    pub docker_host: String,
    pub requires_wait_to_stop: bool,
}

/// One best-effort engine call of a teardown.
#[derive(Clone, Debug)]
pub enum TeardownStep {
    KillContainer { container_id: String, docker_host: String },
    DeleteContainer { container_id: String, docker_host: String },
    DeleteImage { image_id: String, docker_host: String },
    PruneDanglingImages { docker_host: String },
}

/// A teardown step over plain text: which call, on which id, on which host.
pub enum StepView {
    Kill(Seq<char>, Seq<char>),
    Delete(Seq<char>, Seq<char>),
    DeleteImage(Seq<char>, Seq<char>),
    Prune(Seq<char>),
}

pub open spec fn step_view(s: TeardownStep) -> StepView {
    match s {
        TeardownStep::KillContainer { container_id, docker_host } => StepView::Kill(
            container_id@,
            docker_host@,
        ),
        TeardownStep::DeleteContainer { container_id, docker_host } => StepView::Delete(
            container_id@,
            docker_host@,
        ),
        TeardownStep::DeleteImage { image_id, docker_host } => StepView::DeleteImage(
            image_id@,
            docker_host@,
        ),
        TeardownStep::PruneDanglingImages { docker_host } => StepView::Prune(docker_host@),
    }
}

pub open spec fn steps_view(v: Seq<TeardownStep>) -> Seq<StepView> {
    v.map_values(|s: TeardownStep| step_view(s))
}

pub open spec fn is_ready(f: DockerContainerIdFuture) -> bool {
    f.container_id is Some || !f.requires_wait_to_stop
}

/// The calls that stop `f` once it is ready: kill its container (and delete it when cleaning
/// up), then, when cleaning up, delete its image and prune dangling images.
pub open spec fn teardown_plan(f: DockerContainerIdFuture, clean_up: bool) -> Seq<StepView> {
    let h = f.docker_host@;
    let container_part = match f.container_id {
        Some(id) => if clean_up {
            seq![StepView::Kill(id@, h), StepView::Delete(id@, h)]
        } else {
            seq![StepView::Kill(id@, h)]
        },
        None => Seq::empty(),
    };
    let image_part = match f.image_id {
        Some(img) => if clean_up {
            seq![StepView::DeleteImage(img@, h), StepView::Prune(h)]
        } else {
            Seq::empty()
        },
        None => Seq::empty(),
    };
    container_part + image_part
}

impl DockerContainerIdFuture {
    /// A future on `docker_host` that knows no container yet and needs no wait to stop.
    pub fn new(docker_host: &str) -> (r: DockerContainerIdFuture)
        ensures
            r.image_id is None,
            r.container_id is None,
            r.docker_host@ == docker_host@,
            !r.requires_wait_to_stop,
    {
        DockerContainerIdFuture {
            image_id: None,
            container_id: None,
            docker_host: docker_host.to_owned(),
            requires_wait_to_stop: false,
        }
    }

    /// Records the container's id, once it is known; stopping it now takes a teardown.
    pub fn register(&mut self, container_id: &str)
        ensures
            final(self).container_id is Some,
            final(self).container_id->0@ == container_id@,
            final(self).requires_wait_to_stop,
            final(self).image_id == old(self).image_id,
            final(self).docker_host == old(self).docker_host,
    {
        self.container_id = Some(container_id.to_owned());
        self.requires_wait_to_stop = true;
    }

    /// Records the image the container runs, to be deleted at teardown.
    pub fn set_image_id(&mut self, image_id: &str)
        ensures
            final(self).image_id is Some,
            final(self).image_id->0@ == image_id@,
            final(self).container_id == old(self).container_id,
            final(self).requires_wait_to_stop == old(self).requires_wait_to_stop,
            final(self).docker_host == old(self).docker_host,
    {
        self.image_id = Some(image_id.to_owned());
    }

    /// Forgets the container: there is nothing left to stop.
    pub fn unregister(&mut self)
        ensures
            final(self).container_id is None,
            !final(self).requires_wait_to_stop,
            final(self).image_id == old(self).image_id,
            final(self).docker_host == old(self).docker_host,
    {
        self.container_id = None;
        self.requires_wait_to_stop = false;
    }

    /// Ready once the container id is known, or once no id is awaited.
    pub fn poll(&self) -> (r: Readiness)
        ensures
            r == Readiness::Ready <==> is_ready(*self),
    {
        if self.container_id.is_some() || !self.requires_wait_to_stop {
            Readiness::Ready
        } else {
            Readiness::Pending
        }
    }

    /// Whether stopping this future has anything to do at all.
    pub fn stop_requested(&self) -> (r: bool)
        ensures
            r == self.requires_wait_to_stop,
    {
        self.requires_wait_to_stop
    }

    /// One poll of a stop: `None` while the id is awaited, leaving the future as it is;
    /// otherwise the teardown calls to make, with the future unregistered and its image
    /// forgotten. The calls are fixed here, before any is made, so that none of them can
    /// keep a later one from running.
    pub fn take_teardown(&mut self, clean_up: bool) -> (r: Option<Vec<TeardownStep>>)
        ensures
            !is_ready(*old(self)) ==> r is None && *final(self) == *old(self),
            is_ready(*old(self)) ==> {
                &&& r is Some
                &&& steps_view(r->0@) == teardown_plan(*old(self), clean_up)
                &&& final(self).container_id is None
                &&& !final(self).requires_wait_to_stop
                &&& final(self).image_id is None
                &&& final(self).docker_host == old(self).docker_host
            },
    {
        if self.poll() == Readiness::Pending {
            return None;
        }
        let mut steps: Vec<TeardownStep> = Vec::new();
        match &self.container_id {
            Some(id) => {
                steps.push(
                    TeardownStep::KillContainer {
                        container_id: id.clone(),
                        docker_host: self.docker_host.clone(),
                    },
                );
                if clean_up {
                    steps.push(
                        TeardownStep::DeleteContainer {
                            container_id: id.clone(),
                            docker_host: self.docker_host.clone(),
                        },
                    );
                }
            },
            None => {},
        }
        let ghost mid = steps@;
        match &self.image_id {
            Some(img) => {
                if clean_up {
                    steps.push(
                        TeardownStep::DeleteImage {
                            image_id: img.clone(),
                            docker_host: self.docker_host.clone(),
                        },
                    );
                    steps.push(
                        TeardownStep::PruneDanglingImages { docker_host: self.docker_host.clone() },
                    );
                }
            },
            None => {},
        }
        assert(steps_view(steps@) =~= teardown_plan(*old(self), clean_up));
        self.unregister();
        self.image_id = None;
        Some(steps)
    }
}

/// Stopping a future that was already unregistered does nothing: no step is planned and
/// the future is left as it is.
pub proof fn lemma_stop_unregistered_is_noop(f: DockerContainerIdFuture)
    requires
        f.container_id is None,
        !f.requires_wait_to_stop,
    ensures
        !f.requires_wait_to_stop,
        is_ready(f),
        teardown_plan(f, false).len() == 0,
{
}

/// Teardown is best effort: once a registered container is ready to stop, its kill is
/// followed by its deletion (when cleaning up) in a plan fixed before any call is made,
/// so a failed kill leaves the deletion and the unregistering in place.
pub proof fn lemma_teardown_continues_after_kill(f: DockerContainerIdFuture)
    requires
        f.container_id is Some,
        f.requires_wait_to_stop,
    ensures
        is_ready(f),
        teardown_plan(f, true).len() >= 2,
        teardown_plan(f, true)[0] == StepView::Kill(f.container_id->0@, f.docker_host@),
        teardown_plan(f, true)[1] == StepView::Delete(f.container_id->0@, f.docker_host@),
{
}

} // verus!
