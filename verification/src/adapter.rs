//! Adapters: physical or virtual GPUs, the queue families they offer, and the
//! opening of a logical device with a chosen set of queues.

use vstd::prelude::*;
use crate::device::{Device, DeviceView, Support};
use crate::error::{Error, NATIVE_SUCCESS};
use crate::queue::{Queue, QueueView};

verus! {

/// The capability class of a queue family. Every class can transfer.
#[derive(Clone, Copy, Debug, PartialEq, Eq, Structural)]
pub enum QueueType {
    /// Graphics, compute and transfer.
    General,
    /// Graphics and transfer.
    Graphics,
    /// Compute and transfer.
    Compute,
    /// Transfer only.
    Transfer,
}

impl QueueType {
    /// The most capable class that covers the given capabilities: a family that can
    /// do several things is reported by the class that includes them all.
    pub open spec fn covering(graphics: bool, compute: bool) -> QueueType {
        if graphics && compute {
            QueueType::General
        } else if graphics {
            QueueType::Graphics
        } else if compute {
            QueueType::Compute
        } else {
            QueueType::Transfer
        }
    }

    /// The class by which a family with the given capabilities is reported.
    pub fn most_capable(graphics: bool, compute: bool) -> (ty: QueueType)
        ensures
            ty == Self::covering(graphics, compute),
    {
        if graphics && compute {
            QueueType::General
        } else if graphics {
            QueueType::Graphics
        } else if compute {
            QueueType::Compute
        } else {
            QueueType::Transfer
        }
    }

    /// Whether queues of this class take graphics work.
    pub fn supports_graphics(&self) -> (yes: bool)
        ensures
            yes == (*self == QueueType::General || *self == QueueType::Graphics),
    {
        match self {
            QueueType::General => true,
            QueueType::Graphics => true,
            _ => false,
        }
    }

    /// Whether queues of this class take compute work.
    pub fn supports_compute(&self) -> (yes: bool)
        ensures
            yes == (*self == QueueType::General || *self == QueueType::Compute),
    {
        match self {
            QueueType::General => true,
            QueueType::Compute => true,
            _ => false,
        }
    }

    /// Whether queues of this class take transfer work: all do.
    pub fn supports_transfer(&self) -> (yes: bool)
        ensures
            yes,
    {
        true
    }
}

/// What the queues of a family can do.
#[derive(Clone, Copy, Debug, PartialEq, Eq, Structural)]
pub struct Capabilities {
    pub graphics: bool,
    pub compute: bool,
    pub transfer: bool,
    pub present: bool,
}

/// A class of hardware queues that share one capability set.
#[derive(Clone, Copy, Debug, PartialEq, Eq, Structural)]
pub struct QueueFamily {
    /// The family's index on its adapter.
    pub id: u32,
    /// How many queues of this family a device can have.
    pub max_queues: u32,
    /// What the family's queues can do.
    pub capabilities: Capabilities,
}

impl QueueFamily {
    /// The class by which the family is reported: the most capable one that its
    /// capabilities cover.
    pub open spec fn reported_type(self) -> QueueType {
        QueueType::covering(self.capabilities.graphics, self.capabilities.compute)
    }

    /// The class by which the family is reported.
    pub fn queue_type(&self) -> (ty: QueueType)
        ensures
            ty == self.reported_type(),
    {
        QueueType::most_capable(self.capabilities.graphics, self.capabilities.compute)
    }

    /// How many queues of this family a device can have.
    pub fn num_queues(&self) -> (n: u32)
        ensures
            n == self.max_queues,
    {
        self.max_queues
    }
}

/// Information about a backend adapter.
#[derive(Clone, Debug, Eq, PartialEq)]
pub struct AdapterInfo {
    /// Adapter name
    pub name: String,
    /// Vendor PCI id of the adapter
    pub vendor: usize,
    /// PCI id of the adapter
    pub device: usize,
    /// The device is based on a software rasterizer
    pub software_rendering: bool,
}

/// A request for queues of one family: the family, the class the queues are used
/// as, and how many.
pub type QueueRequest = (QueueFamily, QueueType, u32);

/// The families of an adapter as it reports them: each with its most capable class.
pub open spec fn reported(families: Seq<QueueFamily>) -> Seq<(QueueFamily, QueueType)> {
    Seq::new(families.len(), |i: int| (families[i], families[i].reported_type()))
}

/// Whether each family stands with the class it is reported by.
pub open spec fn well_reported(families: Seq<(QueueFamily, QueueType)>) -> bool {
    forall|i: int| 0 <= i < families.len() ==> (#[trigger] families[i]).1 == families[i].0.reported_type()
}

/// Whether a device can be asked for these queues: no request exceeds its family's
/// maximum, and no family is named twice.
pub open spec fn valid_requests(requests: Seq<QueueRequest>) -> bool {
    &&& forall|i: int| 0 <= i < requests.len() ==> (#[trigger] requests[i]).2 <= requests[i].0.max_queues
    &&& forall|i: int, j: int|
        0 <= i < j < requests.len() ==> (#[trigger] requests[i]).0.id != (#[trigger] requests[j]).0.id
}

/// The requests that a selection stands for: for each family in turn, the count
/// and class picked for it, with the families for which nothing was picked left out.
pub open spec fn requested(
    families: Seq<(QueueFamily, QueueType)>,
    picks: Seq<(u32, QueueType)>,
) -> Seq<QueueRequest>
    recommends
        families.len() == picks.len(),
    decreases families.len(),
{
    if families.len() == 0 || picks.len() == 0 {
        Seq::empty()
    } else {
        let rest = requested(families.drop_last(), picks.drop_last());
        if picks.last().0 > 0 {
            rest.push((families.last().0, picks.last().1, picks.last().0))
        } else {
            rest
        }
    }
}

/// Whether `picks` holds, family by family, something that the selector may return
/// for that family.
pub open spec fn selected_by<F: FnMut(&QueueFamily, QueueType) -> (u32, QueueType)>(
    f: F,
    families: Seq<(QueueFamily, QueueType)>,
    picks: Seq<(u32, QueueType)>,
) -> bool {
    &&& picks.len() == families.len()
    &&& forall|i: int|
        0 <= i < families.len() ==> call_ensures(f, (&families[i].0, families[i].1), #[trigger] picks[i])
}

/// The queues of one family on an opened device.
pub struct QueueGroup {
    pub family: QueueFamily,
    pub ty: QueueType,
    pub queues: Vec<Queue>,
}

impl QueueGroup {
    /// Whether the group is what a request asked for: that family, that class, as
    /// many queues as requested, each of the family and with no work taken yet.
    pub open spec fn serves(&self, request: QueueRequest) -> bool {
        &&& self.family == request.0
        &&& self.ty == request.1
        &&& self.queues@.len() == request.2
        &&& forall|j: int|
            0 <= j < self.queues@.len() ==> (#[trigger] self.queues@[j])@ == (QueueView {
                family: request.0.id,
                timeline: Seq::empty(),
            })
    }

    /// Makes the queues that one request asks for.
    pub fn new(request: QueueRequest) -> (group: QueueGroup)
        ensures
            group.serves(request),
    {
        let (family, ty, count) = request;
        let mut queues: Vec<Queue> = Vec::new();
        let mut made: u32 = 0;
        while made < count
            invariant
                made <= count,
                queues@.len() == made,
                forall|j: int|
                    0 <= j < queues@.len() ==> (#[trigger] queues@[j])@ == (QueueView {
                        family: family.id,
                        timeline: Seq::empty(),
                    }),
            decreases count - made,
        {
            queues.push(Queue::new(family.id));
            made = made + 1;
        }
        QueueGroup { family, ty, queues }
    }
}

/// An opened GPU: the logical device, and its queues, grouped by family in the
/// order of the requests it was opened with.
pub struct Gpu {
    pub device: Device,
    pub groups: Vec<QueueGroup>,
}

impl Gpu {
    /// Whether the device has exactly the queues that were requested.
    pub open spec fn serves(&self, requests: Seq<QueueRequest>) -> bool {
        &&& self.groups@.len() == requests.len()
        &&& forall|i: int| 0 <= i < requests.len() ==> (#[trigger] self.groups@[i]).serves(requests[i])
    }

    /// What opening a device with `requests` may return: a device that owns no
    /// resource yet and has exactly those queues, and only for requests that are
    /// valid; or an open failure.
    pub open spec fn opened(requests: Seq<QueueRequest>, r: Result<Gpu, Error>) -> bool {
        match r {
            Ok(gpu) => {
                &&& valid_requests(requests)
                &&& gpu.serves(requests)
                &&& gpu.device@.live.len() == 0
                &&& !gpu.device@.lost
            },
            Err(e) => e == Error::OpenFailure,
        }
    }

    /// Puts a device together with the queues that the requests ask for, group by
    /// group.
    pub fn with_queues(device: Device, requests: &[QueueRequest]) -> (gpu: Gpu)
        ensures
            gpu.serves(requests@),
            gpu.device@ == device@,
    {
        let mut groups: Vec<QueueGroup> = Vec::new();
        let mut i: usize = 0;
        while i < requests.len()
            invariant
                i <= requests@.len(),
                groups@.len() == i,
                forall|k: int| 0 <= k < i ==> (#[trigger] groups@[k]).serves(requests@[k]),
            decreases requests@.len() - i,
        {
            groups.push(QueueGroup::new(requests[i]));
            i = i + 1;
        }
        Gpu { device, groups }
    }

    /// Completes the opening of a device. `native` is the result code of the
    /// driver's device creation, and `supported` what the backend can create on
    /// the device. Valid requests that the driver served give a device with
    /// exactly the requested queues; anything else is an open failure.
    pub fn open(requests: &[QueueRequest], supported: Vec<Support>, native: i32) -> (r: Result<Gpu, Error>)
        ensures
            Self::opened(requests@, r),
            r is Ok <==> valid_requests(requests@) && native == NATIVE_SUCCESS,
            r is Ok ==> r->Ok_0.device@ == (DeviceView { supported: supported@, live: Seq::empty(), lost: false }),
    {
        if check_requests(requests) && native == NATIVE_SUCCESS {
            Ok(Gpu::with_queues(Device::new(supported), requests))
        } else {
            Err(Error::OpenFailure)
        }
    }

    /// How many queues the device has of the family with this index: the size of
    /// the first group of that family, and zero where there is none.
    pub open spec fn queues_of(&self, family: u32) -> nat {
        count_from(self.groups@, family, 0)
    }

    /// How many queues the device has of the family with this index.
    pub fn queue_count(&self, family: u32) -> (n: usize)
        ensures
            n == self.queues_of(family),
    {
        let mut i: usize = 0;
        while i < self.groups.len()
            invariant
                i <= self.groups@.len(),
                count_from(self.groups@, family, 0) == count_from(self.groups@, family, i as int),
            decreases self.groups@.len() - i,
        {
            if self.groups[i].family.id == family {
                return self.groups[i].queues.len();
            }
            i = i + 1;
        }
        0
    }
}

/// The size of the first group of the given family at or after position `from`,
/// and zero where there is none.
pub open spec fn count_from(groups: Seq<QueueGroup>, family: u32, from: int) -> nat
    decreases groups.len() - from,
{
    if from < 0 || from >= groups.len() {
        0
    } else if groups[from].family.id == family {
        groups[from].queues@.len()
    } else {
        count_from(groups, family, from + 1)
    }
}

proof fn lemma_count_reaches(groups: Seq<QueueGroup>, family: u32, from: int, at: int)
    requires
        0 <= from <= at < groups.len(),
        groups[at].family.id == family,
        forall|k: int| from <= k < at ==> (#[trigger] groups[k]).family.id != family,
    ensures
        count_from(groups, family, from) == groups[at].queues@.len(),
    decreases at - from,
{
    if from < at {
        lemma_count_reaches(groups, family, from + 1, at);
    }
}

/// A device that serves valid requests has, of each requested family, exactly as
/// many queues as were requested of it.
pub proof fn lemma_counts_match(gpu: Gpu, requests: Seq<QueueRequest>, i: int)
    requires
        valid_requests(requests),
        gpu.serves(requests),
        0 <= i < requests.len(),
    ensures
        gpu.queues_of(requests[i].0.id) == requests[i].2,
{
    let family = requests[i].0.id;
    assert forall|k: int| 0 <= k < i implies (#[trigger] gpu.groups@[k]).family.id != family by {
        assert(gpu.groups@[k].serves(requests[k]));
        assert(requests[k].0.id != requests[i].0.id);
    }
    assert(gpu.groups@[i].serves(requests[i]));
    lemma_count_reaches(gpu.groups@, family, 0, i);
}

/// Decides whether a device can be asked for these queues.
pub fn check_requests(requests: &[QueueRequest]) -> (valid: bool)
    ensures
        valid == valid_requests(requests@),
{
    let mut i: usize = 0;
    while i < requests.len()
        invariant
            i <= requests@.len(),
            forall|a: int| 0 <= a < i ==> (#[trigger] requests@[a]).2 <= requests@[a].0.max_queues,
            forall|a: int, b: int|
                0 <= a < b < i ==> (#[trigger] requests@[a]).0.id != (#[trigger] requests@[b]).0.id,
        decreases requests@.len() - i,
    {
        if requests[i].2 > requests[i].0.max_queues {
            return false;
        }
        let mut j: usize = 0;
        while j < i
            invariant
                j <= i < requests@.len(),
                forall|a: int| 0 <= a < j ==> (#[trigger] requests@[a]).0.id != requests@[i as int].0.id,
            decreases i - j,
        {
            if requests[j].0.id == requests[i].0.id {
                return false;
            }
            j = j + 1;
        }
        i = i + 1;
    }
    true
}

/// Derives the requests that a selection stands for. `picks` holds, for each
/// family in turn, the count and class selected for it.
pub fn queue_requests(families: &[(QueueFamily, QueueType)], picks: &[(u32, QueueType)]) -> (requests:
    Vec<QueueRequest>)
    requires
        families@.len() == picks@.len(),
    ensures
        requests@ == requested(families@, picks@),
{
    let mut requests: Vec<QueueRequest> = Vec::new();
    let mut i: usize = 0;
    while i < families.len()
        invariant
            i <= families@.len(),
            families@.len() == picks@.len(),
            requests@ == requested(families@.take(i as int), picks@.take(i as int)),
        decreases families@.len() - i,
    {
        let (family, _) = families[i];
        let (count, ty) = picks[i];
        proof {
            assert(families@.take(i + 1).drop_last() =~= families@.take(i as int));
            assert(picks@.take(i + 1).drop_last() =~= picks@.take(i as int));
        }
        if count > 0 {
            requests.push((family, ty, count));
        }
        i = i + 1;
    }
    proof {
        assert(families@.take(i as int) =~= families@);
        assert(picks@.take(i as int) =~= picks@);
    }
    requests
}

/// Represents a physical or virtual device, which is capable of running the backend.
pub trait Adapter: Sized {
    /// The queue families the adapter offers, each with the class it is reported
    /// by, fixed for the adapter's lifetime.
    spec fn families(&self) -> Seq<(QueueFamily, QueueType)>;

    /// The adapter's identity, fixed for the adapter's lifetime.
    spec fn info(&self) -> AdapterInfo;

    /// Create a new logical gpu with the specified queues. The device that comes
    /// back has exactly the requested queues, and comes back only for valid
    /// requests; every refusal is an open failure.
    fn open(&self, queue_descs: &[QueueRequest]) -> (r: Result<Gpu, Error>)
        ensures
            Gpu::opened(queue_descs@, r),
    ;

    /// Create a new gpu with the specified queues.
    ///
    /// Calls the selector once for each family, in order, keeps the families for
    /// which it returned a count above zero, and opens a device with those. The
    /// result is what `open` gives for the derived requests.
    fn open_with<F>(&self, mut f: F) -> (r: Result<Gpu, Error>) where
        F: FnMut(&QueueFamily, QueueType) -> (u32, QueueType),

        requires
            forall|i: int|
                0 <= i < self.families().len() ==> call_requires(
                    f,
                    (&self.families()[i].0, self.families()[i].1),
                ),
        ensures
            exists|picks: Seq<(u32, QueueType)>|
                selected_by(f, self.families(), picks) && Gpu::opened(
                    #[trigger] requested(self.families(), picks),
                    r,
                ),
    {
        let ghost selector = f;
        let families = self.get_queue_families();
        let mut picks: Vec<(u32, QueueType)> = Vec::new();
        let mut i: usize = 0;
        while i < families.len()
            invariant
                f == selector,
                i <= families@.len(),
                families@ == self.families(),
                picks@.len() == i,
                forall|k: int|
                    0 <= k < families@.len() ==> call_requires(f, (&families@[k].0, families@[k].1)),
                forall|k: int|
                    0 <= k < i ==> call_ensures(f, (&families@[k].0, families@[k].1), #[trigger] picks@[k]),
            decreases families@.len() - i,
        {
            let (family, ty) = families[i];
            let pick = f(&family, ty);
            picks.push(pick);
            i = i + 1;
        }
        let queue_descs = queue_requests(families, picks.as_slice());
        proof {
            assert(selected_by(selector, self.families(), picks@));
        }
        self.open(queue_descs.as_slice())
    }

    /// Get the `AdapterInfo` for this adapter.
    fn get_info(&self) -> (info: &AdapterInfo)
        ensures
            *info == self.info(),
    ;

    /// Return the supported queue families for this adapter, always the same
    /// sequence.
    ///
    /// * `QueueType` will be the one with the most capabilities.
    /// * There can be multiple families with the same queue type.
    fn get_queue_families(&self) -> (families: &[(QueueFamily, QueueType)])
        ensures
            families@ == self.families(),
            well_reported(families@),
    ;
}

/// An adapter without a driver behind it: it offers the families it was made with
/// and opens every device that may be opened.
pub struct NullAdapter {
    info: AdapterInfo,
    families: Vec<(QueueFamily, QueueType)>,
    supported: Vec<Support>,
}

impl NullAdapter {
    #[verifier::type_invariant]
    spec fn reports_most_capable(self) -> bool {
        well_reported(self.families@)
    }

    /// What a device of this adapter can create.
    pub closed spec fn creatable(&self) -> Seq<Support> {
        self.supported@
    }

    /// An adapter that offers the given families, each reported by its most
    /// capable class, and whose devices can create the given combinations.
    pub fn new(info: AdapterInfo, families: Vec<QueueFamily>, supported: Vec<Support>) -> (adapter:
        NullAdapter)
        ensures
            adapter.info() == info,
            adapter.families() == reported(families@),
            adapter.creatable() == supported@,
    {
        let mut typed: Vec<(QueueFamily, QueueType)> = Vec::new();
        let mut i: usize = 0;
        while i < families.len()
            invariant
                i <= families@.len(),
                typed@ == reported(families@.take(i as int)),
            decreases families@.len() - i,
        {
            let family = families[i];
            typed.push((family, family.queue_type()));
            proof {
                assert(typed@ =~= reported(families@.take(i + 1)));
            }
            i = i + 1;
        }
        proof {
            assert(families@.take(i as int) =~= families@);
        }
        NullAdapter { info, families: typed, supported }
    }
}

impl Adapter for NullAdapter {
    closed spec fn families(&self) -> Seq<(QueueFamily, QueueType)> {
        self.families@
    }

    closed spec fn info(&self) -> AdapterInfo {
        self.info
    }

    fn open(&self, queue_descs: &[QueueRequest]) -> (r: Result<Gpu, Error>)
        ensures
            r is Ok <==> valid_requests(queue_descs@),
            r is Ok ==> r->Ok_0.device@ == (DeviceView {
                supported: self.creatable(),
                live: Seq::empty(),
                lost: false,
            }),
    {
        Gpu::open(queue_descs, self.supported.clone(), NATIVE_SUCCESS)
    }

    fn get_info(&self) -> (info: &AdapterInfo) {
        &self.info
    }

    fn get_queue_families(&self) -> (families: &[(QueueFamily, QueueType)]) {
        proof {
            use_type_invariant(self);
        }
        self.families.as_slice()
    }
}

/// A selection that picks no queue of any family asks for nothing: opening with it
/// is opening with no requests at all.
pub proof fn lemma_nothing_selected(families: Seq<(QueueFamily, QueueType)>, picks: Seq<(u32, QueueType)>)
    requires
        families.len() == picks.len(),
        forall|i: int| 0 <= i < picks.len() ==> (#[trigger] picks[i]).0 == 0,
    ensures
        requested(families, picks) == Seq::<QueueRequest>::empty(),
    decreases families.len(),
{
    if families.len() > 0 {
        lemma_nothing_selected(families.drop_last(), picks.drop_last());
    }
}

/// Every derived request comes from a family that was offered: it names that
/// family with the class and the count picked for it, and the count is above zero.
/// Returns the position of that family.
pub proof fn lemma_requested_origin(
    families: Seq<(QueueFamily, QueueType)>,
    picks: Seq<(u32, QueueType)>,
    j: int,
) -> (k: int)
    requires
        families.len() == picks.len(),
        0 <= j < requested(families, picks).len(),
    ensures
        0 <= k < families.len(),
        requested(families, picks)[j] == (families[k].0, picks[k].1, picks[k].0),
        picks[k].0 > 0,
    decreases families.len(),
{
    let rest = requested(families.drop_last(), picks.drop_last());
    if picks.last().0 > 0 && j == rest.len() {
        families.len() - 1
    } else {
        lemma_requested_origin(families.drop_last(), picks.drop_last(), j)
    }
}

/// Where the families have distinct ids and no pick exceeds its family's maximum,
/// the derived requests are valid, so only the driver can still refuse them.
pub proof fn lemma_requested_valid(families: Seq<(QueueFamily, QueueType)>, picks: Seq<(u32, QueueType)>)
    requires
        families.len() == picks.len(),
        forall|i: int, j: int|
            0 <= i < j < families.len() ==> (#[trigger] families[i]).0.id != (#[trigger] families[j]).0.id,
        forall|i: int| 0 <= i < picks.len() ==> (#[trigger] picks[i]).0 <= families[i].0.max_queues,
    ensures
        valid_requests(requested(families, picks)),
    decreases families.len(),
{
    if families.len() > 0 {
        let head = families.drop_last();
        let head_picks = picks.drop_last();
        let rest = requested(head, head_picks);
        lemma_requested_valid(head, head_picks);
        if picks.last().0 > 0 {
            let all = requested(families, picks);
            assert forall|a: int, b: int| 0 <= a < b < all.len() implies (#[trigger] all[a]).0.id != (
            #[trigger] all[b]).0.id by {
                if b == rest.len() {
                    let k = lemma_requested_origin(head, head_picks, a);
                    assert(head[k] == families[k]);
                    assert(families[k].0.id != families[families.len() - 1].0.id);
                } else {
                    assert(rest[a].0.id != rest[b].0.id);
                }
            }
            assert forall|a: int| 0 <= a < all.len() implies (#[trigger] all[a]).2 <= all[a].0.max_queues by {
                if a < rest.len() {
                    assert(rest[a].2 <= rest[a].0.max_queues);
                }
            }
        }
    }
}

/// No requests at all are valid requests, and a device serves them exactly when
/// it has no queues.
pub proof fn lemma_empty_requests(gpu: Gpu)
    ensures
        valid_requests(Seq::<QueueRequest>::empty()),
        gpu.serves(Seq::<QueueRequest>::empty()) <==> gpu.groups@.len() == 0,
{
}

} // verus!
