//! Registry of ad creative assets: registration, review status, community
//! flagging, and delivery counters.
//!
//! Content starts out pending review; the administrator moves it through
//! the status lifecycle, reporters can flag it (enough flags suspend it
//! automatically), and views and clicks are tallied per content with a
//! click-through rate kept in basis points. The host authenticates callers
//! and supplies the ledger timestamp.

use vstd::prelude::*;

verus! {

#[derive(Clone, Copy, PartialEq, Eq, Structural, Debug)]
pub enum ContentStatus {
    Pending,
    Approved,
    Rejected,
    Suspended,
    Archived,
}

#[derive(Clone, Copy, PartialEq, Eq, Structural, Debug)]
pub enum ContentFormat {
    Image,
    Video,
    Text,
    Native,
}

/// One registered creative, identified by its creation rank.
#[derive(Debug)]
pub struct AdContent {
    pub campaign_id: u64,
    pub owner: u64,
    pub ipfs_hash: String,
    pub format: ContentFormat,
    pub size: u64,
    pub status: ContentStatus,
    pub created_at: u64,
    pub updated_at: u64,
    pub flags_count: u32,
}

impl Clone for AdContent {
    /// Field-for-field copy; the contracts below rely on clones being
    /// equal to the original.
    fn clone(&self) -> (r: AdContent)
        ensures
            r == *self,
    {
        AdContent {
            campaign_id: self.campaign_id,
            owner: self.owner,
            ipfs_hash: self.ipfs_hash.clone(),
            format: self.format,
            size: self.size,
            status: self.status,
            created_at: self.created_at,
            updated_at: self.updated_at,
            flags_count: self.flags_count,
        }
    }
}

/// Descriptive copy attached to a creative at registration.
#[derive(Debug)]
pub struct ContentMetadata {
    pub title: String,
    pub description: String,
    pub call_to_action: String,
    pub landing_url: String,
}

impl Clone for ContentMetadata {
    /// Field-for-field copy; the contracts below rely on clones being
    /// equal to the original.
    fn clone(&self) -> (r: ContentMetadata)
        ensures
            r == *self,
    {
        ContentMetadata {
            title: self.title.clone(),
            description: self.description.clone(),
            call_to_action: self.call_to_action.clone(),
            landing_url: self.landing_url.clone(),
        }
    }
}

/// Delivery counters for one creative. The click-through rate is stored in
/// hundredths of a percent (basis points): clicks times ten thousand,
/// divided by views.
#[derive(Clone, Copy, PartialEq, Eq, Debug)]
pub struct ContentPerformance {
    pub total_views: u64,
    pub total_clicks: u64,
    pub unique_viewers: u64,
    pub click_through_rate: u64,
    pub last_shown: u64,
}

/// One flag raised against a creative.
#[derive(Debug)]
pub struct FlagRecord {
    pub reason: String,
    pub timestamp: u64,
    pub verified: bool,
}

impl Clone for FlagRecord {
    /// Field-for-field copy; the contracts below rely on clones being
    /// equal to the original.
    fn clone(&self) -> (r: FlagRecord)
        ensures
            r == *self,
    {
        FlagRecord {
            reason: self.reason.clone(),
            timestamp: self.timestamp,
            verified: self.verified,
        }
    }
}

/// A flag together with the reporter who raised it; a reporter keeps at
/// most one record per content, refreshed on repeat.
pub struct FlagEntry {
    pub reporter: u64,
    pub flag: FlagRecord,
}

/// Why a registry operation was rejected; every rejection leaves the state
/// untouched.
#[derive(Clone, Copy, PartialEq, Eq, Debug)]
pub enum AdRegistryError {
    /// The declared size is outside the configured bounds.
    InvalidContentSize,
    /// The referenced content identifier has no record.
    ContentNotFound,
    /// Owners may not flag their own content.
    CannotFlagOwnContent,
    /// Only approved content can be shown.
    ContentNotApproved,
    /// A counter cannot grow any further.
    CounterOverflow,
    /// The caller is not the administrator or owner this operation needs.
    Unauthorized,
}

/// Everything the registry stores for one creative.
pub struct ContentSlot {
    pub content: AdContent,
    pub metadata: ContentMetadata,
    pub performance: ContentPerformance,
    pub flags: Vec<FlagEntry>,
}

/// The registry: configuration and one slot per registered creative.
pub struct AdRegistryContract {
    pub admin: u64,
    pub min_content_size: u64,
    pub max_content_size: u64,
    pub flag_threshold: u32,
    pub contents: Vec<ContentSlot>,
}

/// Click tallies stay at or below this bound, one ten-thousandth of
/// `u64::MAX`, so the click-through-rate numerator stays inside `u64`.
pub const CLICK_TALLY_LIMIT: u64 = 1_844_674_407_370_955;

/// The click-through rate in basis points for given tallies.
pub open spec fn ctr_spec(clicks: u64, views: u64) -> int {
    (clicks * 10_000) / (views as int)
}

/// Consistency of one content slot: reporters are distinct and the click
/// tally respects the bound that keeps rate arithmetic exact.
pub open spec fn content_slot_wf(s: ContentSlot) -> bool {
    &&& forall|i: int, j: int|
        0 <= i < j < s.flags@.len() ==> (#[trigger] s.flags@[i]).reporter != (
        #[trigger] s.flags@[j]).reporter
    &&& s.performance.total_clicks <= CLICK_TALLY_LIMIT
}

/// Whether `reporter` already has a flag on record in this slot.
pub open spec fn flagged_by(s: ContentSlot, reporter: u64) -> bool {
    exists|i: int| 0 <= i < s.flags@.len() && (#[trigger] s.flags@[i]).reporter == reporter
}

impl AdRegistryContract {
    pub open spec fn wf(self) -> bool {
        forall|i: int| 0 <= i < self.contents@.len() ==> content_slot_wf(
            #[trigger] self.contents@[i],
        )
    }

    pub open spec fn has_content(self, content_id: u64) -> bool {
        1 <= content_id && content_id as int <= self.contents@.len()
    }

    pub open spec fn slot(self, content_id: u64) -> ContentSlot {
        self.contents@[content_id as int - 1]
    }

    /// Everything but the flag threshold is fixed at initialization.
    pub open spec fn same_config(self, other: AdRegistryContract) -> bool {
        &&& self.admin == other.admin
        &&& self.min_content_size == other.min_content_size
        &&& self.max_content_size == other.max_content_size
    }

    /// Set up the registry with its administrator and the default size
    /// bounds and flag threshold.
    pub fn initialize(admin: u64) -> (v: AdRegistryContract)
        ensures
            v.wf(),
            v.admin == admin,
            v.min_content_size == 100,
            v.max_content_size == 10_485_760,
            v.flag_threshold == 5,
            v.contents@.len() == 0,
    {
        AdRegistryContract {
            admin,
            min_content_size: 100,
            max_content_size: 10_485_760,
            flag_threshold: 5,
            contents: Vec::new(),
        }
    }

    /// Register a creative with its metadata; it starts pending review
    /// with zeroed delivery counters. `owner` is the principal the host
    /// records as controlling the content. Returns the new content's
    /// identifier.
    pub fn register_content(
        &mut self,
        campaign_id: u64,
        ipfs_hash: String,
        format: ContentFormat,
        size: u64,
        title: String,
        description: String,
        call_to_action: String,
        landing_url: String,
        owner: u64,
        now: u64,
    ) -> (r: Result<u64, AdRegistryError>)
        requires
            old(self).wf(),
        ensures
            final(self).wf(),
            old(self).same_config(*final(self)),
            final(self).flag_threshold == old(self).flag_threshold,
            r is Ok <==> old(self).min_content_size <= size <= old(self).max_content_size,
            r is Err ==> *final(self) == *old(self),
            r == Err::<u64, AdRegistryError>(AdRegistryError::InvalidContentSize) <==> !(old(
                self,
            ).min_content_size <= size <= old(self).max_content_size),
            r matches Ok(content_id) ==> {
                &&& content_id as int == old(self).contents@.len() + 1
                &&& final(self).contents@.len() == old(self).contents@.len() + 1
                &&& (forall|j: int|
                    0 <= j < old(self).contents@.len() ==> final(self).contents@[j] == old(
                        self,
                    ).contents@[j])
                &&& final(self).slot(content_id).content == (AdContent {
                    campaign_id,
                    owner,
                    ipfs_hash,
                    format,
                    size,
                    status: ContentStatus::Pending,
                    created_at: now,
                    updated_at: now,
                    flags_count: 0,
                })
                &&& final(self).slot(content_id).metadata == (ContentMetadata {
                    title,
                    description,
                    call_to_action,
                    landing_url,
                })
                &&& final(self).slot(content_id).performance == (ContentPerformance {
                    total_views: 0,
                    total_clicks: 0,
                    unique_viewers: 0,
                    click_through_rate: 0,
                    last_shown: 0,
                })
                &&& final(self).slot(content_id).flags@.len() == 0
            },
    {
        if size < self.min_content_size || size > self.max_content_size {
            return Err(AdRegistryError::InvalidContentSize);
        }
        self.contents.push(
            ContentSlot {
                content: AdContent {
                    campaign_id,
                    owner,
                    ipfs_hash,
                    format,
                    size,
                    status: ContentStatus::Pending,
                    created_at: now,
                    updated_at: now,
                    flags_count: 0,
                },
                metadata: ContentMetadata { title, description, call_to_action, landing_url },
                performance: ContentPerformance {
                    total_views: 0,
                    total_clicks: 0,
                    unique_viewers: 0,
                    click_through_rate: 0,
                    last_shown: 0,
                },
                flags: Vec::new(),
            },
        );
        Ok(self.contents.len() as u64)
    }

    /// Move a creative to a new review status. Administrator only.
    pub fn update_status(
        &mut self,
        admin: u64,
        content_id: u64,
        new_status: ContentStatus,
        now: u64,
    ) -> (r: Result<(), AdRegistryError>)
        requires
            old(self).wf(),
        ensures
            final(self).wf(),
            old(self).same_config(*final(self)),
            final(self).flag_threshold == old(self).flag_threshold,
            r is Err ==> *final(self) == *old(self),
            r == Err::<(), AdRegistryError>(AdRegistryError::Unauthorized) <==> admin != old(
                self,
            ).admin,
            r == Err::<(), AdRegistryError>(AdRegistryError::ContentNotFound) <==> admin == old(
                self,
            ).admin && !old(self).has_content(content_id),
            r is Ok <==> admin == old(self).admin && old(self).has_content(content_id),
            r is Ok ==> {
                let pre = old(self).slot(content_id);
                &&& final(self).contents@.len() == old(self).contents@.len()
                &&& (forall|j: int|
                    0 <= j < old(self).contents@.len() && j != content_id - 1
                        ==> final(self).contents@[j] == old(self).contents@[j])
                &&& final(self).slot(content_id).content == (AdContent {
                    status: new_status,
                    updated_at: now,
                    ..pre.content
                })
                &&& final(self).slot(content_id).metadata == pre.metadata
                &&& final(self).slot(content_id).performance == pre.performance
                &&& final(self).slot(content_id).flags@ == pre.flags@
            },
    {
        if admin != self.admin {
            return Err(AdRegistryError::Unauthorized);
        }
        if !(1 <= content_id && content_id <= self.contents.len() as u64) {
            return Err(AdRegistryError::ContentNotFound);
        }
        let idx: usize = (content_id - 1) as usize;
        let mut slot = self.contents.remove(idx);
        slot.content.status = new_status;
        slot.content.updated_at = now;
        let ghost gslot = slot;
        self.contents.insert(idx, slot);
        proof {
            assert(self.contents@ =~= old(self).contents@.update(idx as int, gslot));
        }
        Ok(())
    }

    /// Flag a creative for review. Each call increments the flag counter;
    /// a reporter's record is kept once and refreshed on repeat. Reaching
    /// the configured threshold suspends the content automatically.
    pub fn flag_content(&mut self, reporter: u64, content_id: u64, reason: String, now: u64) -> (r:
        Result<(), AdRegistryError>)
        requires
            old(self).wf(),
        ensures
            final(self).wf(),
            old(self).same_config(*final(self)),
            final(self).flag_threshold == old(self).flag_threshold,
            r is Err ==> *final(self) == *old(self),
            r == Err::<(), AdRegistryError>(AdRegistryError::ContentNotFound) <==> !old(
                self,
            ).has_content(content_id),
            r == Err::<(), AdRegistryError>(AdRegistryError::CannotFlagOwnContent) <==> old(
                self,
            ).has_content(content_id) && old(self).slot(content_id).content.owner == reporter,
            r == Err::<(), AdRegistryError>(AdRegistryError::CounterOverflow) <==> old(
                self,
            ).has_content(content_id) && old(self).slot(content_id).content.owner != reporter
                && old(self).slot(content_id).content.flags_count == u32::MAX,
            r is Ok <==> old(self).has_content(content_id) && old(self).slot(
                content_id,
            ).content.owner != reporter && old(self).slot(content_id).content.flags_count
                < u32::MAX,
            r is Ok ==> {
                let pre = old(self).slot(content_id);
                let post = final(self).slot(content_id);
                &&& final(self).contents@.len() == old(self).contents@.len()
                &&& (forall|j: int|
                    0 <= j < old(self).contents@.len() && j != content_id - 1
                        ==> final(self).contents@[j] == old(self).contents@[j])
                &&& post.content == (AdContent {
                    flags_count: (pre.content.flags_count + 1) as u32,
                    status: if pre.content.flags_count + 1 >= old(self).flag_threshold {
                        ContentStatus::Suspended
                    } else {
                        pre.content.status
                    },
                    updated_at: now,
                    ..pre.content
                })
                &&& post.metadata == pre.metadata
                &&& post.performance == pre.performance
                &&& flagged_by(post, reporter)
                &&& (flagged_by(pre, reporter) ==> post.flags@.len() == pre.flags@.len())
                &&& (!flagged_by(pre, reporter) ==> post.flags@.len() == pre.flags@.len() + 1)
            },
    {
        if !(1 <= content_id && content_id <= self.contents.len() as u64) {
            return Err(AdRegistryError::ContentNotFound);
        }
        let idx: usize = (content_id - 1) as usize;
        if self.contents[idx].content.owner == reporter {
            return Err(AdRegistryError::CannotFlagOwnContent);
        }
        if self.contents[idx].content.flags_count == u32::MAX {
            return Err(AdRegistryError::CounterOverflow);
        }
        let found = find_flag(&self.contents[idx].flags, reporter);
        let mut slot = self.contents.remove(idx);
        let flag = FlagRecord { reason, timestamp: now, verified: false };
        match found {
            Some(f_idx) => {
                slot.flags.set(f_idx, FlagEntry { reporter, flag });
            },
            None => {
                slot.flags.push(FlagEntry { reporter, flag });
            },
        }
        slot.content.flags_count = slot.content.flags_count + 1;
        if slot.content.flags_count >= self.flag_threshold {
            slot.content.status = ContentStatus::Suspended;
        }
        slot.content.updated_at = now;
        let ghost gslot = slot;
        self.contents.insert(idx, slot);
        proof {
            match found {
                Some(f_idx) => {
                    assert((#[trigger] gslot.flags@[f_idx as int]).reporter == reporter);
                },
                None => {
                    assert((#[trigger] gslot.flags@[gslot.flags@.len() - 1]).reporter == reporter);
                },
            }
            assert(flagged_by(gslot, reporter));
            assert(self.contents@ =~= old(self).contents@.update(idx as int, gslot));
        }
        Ok(())
    }

    /// Record one view of an approved creative: bump the view and unique
    /// viewer tallies, refresh the click-through rate, and stamp the time.
    pub fn track_view(&mut self, content_id: u64, now: u64) -> (r: Result<(), AdRegistryError>)
        requires
            old(self).wf(),
        ensures
            final(self).wf(),
            old(self).same_config(*final(self)),
            final(self).flag_threshold == old(self).flag_threshold,
            r is Err ==> *final(self) == *old(self),
            r == Err::<(), AdRegistryError>(AdRegistryError::ContentNotFound) <==> !old(
                self,
            ).has_content(content_id),
            r == Err::<(), AdRegistryError>(AdRegistryError::ContentNotApproved) <==> old(
                self,
            ).has_content(content_id) && old(self).slot(content_id).content.status
                != ContentStatus::Approved,
            r == Err::<(), AdRegistryError>(AdRegistryError::CounterOverflow) <==> old(
                self,
            ).has_content(content_id) && old(self).slot(content_id).content.status
                == ContentStatus::Approved && (old(self).slot(content_id).performance.total_views
                == u64::MAX || old(self).slot(content_id).performance.unique_viewers == u64::MAX),
            r is Ok <==> old(self).has_content(content_id) && old(self).slot(
                content_id,
            ).content.status == ContentStatus::Approved && old(self).slot(
                content_id,
            ).performance.total_views < u64::MAX && old(self).slot(
                content_id,
            ).performance.unique_viewers < u64::MAX,
            r is Ok ==> {
                let pre = old(self).slot(content_id);
                &&& final(self).contents@.len() == old(self).contents@.len()
                &&& (forall|j: int|
                    0 <= j < old(self).contents@.len() && j != content_id - 1
                        ==> final(self).contents@[j] == old(self).contents@[j])
                &&& final(self).slot(content_id).performance == (ContentPerformance {
                    total_views: (pre.performance.total_views + 1) as u64,
                    unique_viewers: (pre.performance.unique_viewers + 1) as u64,
                    click_through_rate: ctr_spec(
                        pre.performance.total_clicks,
                        (pre.performance.total_views + 1) as u64,
                    ) as u64,
                    last_shown: now,
                    ..pre.performance
                })
                &&& final(self).slot(content_id).content == pre.content
                &&& final(self).slot(content_id).metadata == pre.metadata
                &&& final(self).slot(content_id).flags@ == pre.flags@
            },
    {
        if !(1 <= content_id && content_id <= self.contents.len() as u64) {
            return Err(AdRegistryError::ContentNotFound);
        }
        let idx: usize = (content_id - 1) as usize;
        if self.contents[idx].content.status != ContentStatus::Approved {
            return Err(AdRegistryError::ContentNotApproved);
        }
        if self.contents[idx].performance.total_views == u64::MAX
            || self.contents[idx].performance.unique_viewers == u64::MAX {
            return Err(AdRegistryError::CounterOverflow);
        }
        let mut slot = self.contents.remove(idx);
        slot.performance.total_views = slot.performance.total_views + 1;
        slot.performance.unique_viewers = slot.performance.unique_viewers + 1;
        slot.performance.last_shown = now;
        slot.performance.click_through_rate = (slot.performance.total_clicks * 10_000)
            / slot.performance.total_views;
        let ghost gslot = slot;
        self.contents.insert(idx, slot);
        proof {
            assert(self.contents@ =~= old(self).contents@.update(idx as int, gslot));
        }
        Ok(())
    }

    /// Record one click on a creative: bump the click tally and refresh
    /// the click-through rate once any view was recorded.
    pub fn track_click(&mut self, content_id: u64) -> (r: Result<(), AdRegistryError>)
        requires
            old(self).wf(),
        ensures
            final(self).wf(),
            old(self).same_config(*final(self)),
            final(self).flag_threshold == old(self).flag_threshold,
            r is Err ==> *final(self) == *old(self),
            r == Err::<(), AdRegistryError>(AdRegistryError::ContentNotFound) <==> !old(
                self,
            ).has_content(content_id),
            r == Err::<(), AdRegistryError>(AdRegistryError::CounterOverflow) <==> old(
                self,
            ).has_content(content_id) && old(self).slot(content_id).performance.total_clicks
                == CLICK_TALLY_LIMIT,
            r is Ok <==> old(self).has_content(content_id) && old(self).slot(
                content_id,
            ).performance.total_clicks < CLICK_TALLY_LIMIT,
            r is Ok ==> {
                let pre = old(self).slot(content_id);
                &&& final(self).contents@.len() == old(self).contents@.len()
                &&& (forall|j: int|
                    0 <= j < old(self).contents@.len() && j != content_id - 1
                        ==> final(self).contents@[j] == old(self).contents@[j])
                &&& final(self).slot(content_id).performance == (ContentPerformance {
                    total_clicks: (pre.performance.total_clicks + 1) as u64,
                    click_through_rate: if pre.performance.total_views > 0 {
                        ctr_spec(
                            (pre.performance.total_clicks + 1) as u64,
                            pre.performance.total_views,
                        ) as u64
                    } else {
                        pre.performance.click_through_rate
                    },
                    ..pre.performance
                })
                &&& final(self).slot(content_id).content == pre.content
                &&& final(self).slot(content_id).metadata == pre.metadata
                &&& final(self).slot(content_id).flags@ == pre.flags@
            },
    {
        if !(1 <= content_id && content_id <= self.contents.len() as u64) {
            return Err(AdRegistryError::ContentNotFound);
        }
        let idx: usize = (content_id - 1) as usize;
        if self.contents[idx].performance.total_clicks == CLICK_TALLY_LIMIT {
            return Err(AdRegistryError::CounterOverflow);
        }
        let mut slot = self.contents.remove(idx);
        slot.performance.total_clicks = slot.performance.total_clicks + 1;
        if slot.performance.total_views > 0 {
            slot.performance.click_through_rate = (slot.performance.total_clicks * 10_000)
                / slot.performance.total_views;
        }
        let ghost gslot = slot;
        self.contents.insert(idx, slot);
        proof {
            assert(self.contents@ =~= old(self).contents@.update(idx as int, gslot));
        }
        Ok(())
    }

    /// Archive a creative. Only its owner may do so.
    pub fn archive_content(&mut self, owner: u64, content_id: u64, now: u64) -> (r: Result<
        (),
        AdRegistryError,
    >)
        requires
            old(self).wf(),
        ensures
            final(self).wf(),
            old(self).same_config(*final(self)),
            final(self).flag_threshold == old(self).flag_threshold,
            r is Err ==> *final(self) == *old(self),
            r == Err::<(), AdRegistryError>(AdRegistryError::ContentNotFound) <==> !old(
                self,
            ).has_content(content_id),
            r == Err::<(), AdRegistryError>(AdRegistryError::Unauthorized) <==> old(
                self,
            ).has_content(content_id) && old(self).slot(content_id).content.owner != owner,
            r is Ok <==> old(self).has_content(content_id) && old(self).slot(
                content_id,
            ).content.owner == owner,
            r is Ok ==> {
                let pre = old(self).slot(content_id);
                &&& final(self).contents@.len() == old(self).contents@.len()
                &&& (forall|j: int|
                    0 <= j < old(self).contents@.len() && j != content_id - 1
                        ==> final(self).contents@[j] == old(self).contents@[j])
                &&& final(self).slot(content_id).content == (AdContent {
                    status: ContentStatus::Archived,
                    updated_at: now,
                    ..pre.content
                })
                &&& final(self).slot(content_id).metadata == pre.metadata
                &&& final(self).slot(content_id).performance == pre.performance
                &&& final(self).slot(content_id).flags@ == pre.flags@
            },
    {
        if !(1 <= content_id && content_id <= self.contents.len() as u64) {
            return Err(AdRegistryError::ContentNotFound);
        }
        let idx: usize = (content_id - 1) as usize;
        if self.contents[idx].content.owner != owner {
            return Err(AdRegistryError::Unauthorized);
        }
        let mut slot = self.contents.remove(idx);
        slot.content.status = ContentStatus::Archived;
        slot.content.updated_at = now;
        let ghost gslot = slot;
        self.contents.insert(idx, slot);
        proof {
            assert(self.contents@ =~= old(self).contents@.update(idx as int, gslot));
        }
        Ok(())
    }

    /// Read one creative.
    pub fn get_content(&self, content_id: u64) -> (r: Option<AdContent>)
        ensures
            self.has_content(content_id) ==> r == Some(self.slot(content_id).content),
            !self.has_content(content_id) ==> r is None,
    {
        if 1 <= content_id && content_id <= self.contents.len() as u64 {
            let idx: usize = (content_id - 1) as usize;
            Some(self.contents[idx].content.clone())
        } else {
            None
        }
    }

    /// Read one creative's metadata.
    pub fn get_metadata(&self, content_id: u64) -> (r: Option<ContentMetadata>)
        ensures
            self.has_content(content_id) ==> r == Some(self.slot(content_id).metadata),
            !self.has_content(content_id) ==> r is None,
    {
        if 1 <= content_id && content_id <= self.contents.len() as u64 {
            let idx: usize = (content_id - 1) as usize;
            Some(self.contents[idx].metadata.clone())
        } else {
            None
        }
    }

    /// Read one creative's delivery counters.
    pub fn get_performance(&self, content_id: u64) -> (r: Option<ContentPerformance>)
        ensures
            self.has_content(content_id) ==> r == Some(self.slot(content_id).performance),
            !self.has_content(content_id) ==> r is None,
    {
        if 1 <= content_id && content_id <= self.contents.len() as u64 {
            let idx: usize = (content_id - 1) as usize;
            Some(self.contents[idx].performance)
        } else {
            None
        }
    }

    /// Whether a creative exists and is approved for showing.
    pub fn is_approved(&self, content_id: u64) -> (r: bool)
        ensures
            r == (self.has_content(content_id) && self.slot(content_id).content.status
                == ContentStatus::Approved),
    {
        if 1 <= content_id && content_id <= self.contents.len() as u64 {
            let idx: usize = (content_id - 1) as usize;
            self.contents[idx].content.status == ContentStatus::Approved
        } else {
            false
        }
    }

    /// Number of creatives registered so far.
    pub fn get_nonce(&self) -> (n: u64)
        ensures
            n as int == self.contents@.len(),
    {
        self.contents.len() as u64
    }

    /// Change how many flags suspend a creative. Administrator only.
    pub fn set_flag_threshold(&mut self, admin: u64, threshold: u32) -> (r: Result<
        (),
        AdRegistryError,
    >)
        requires
            old(self).wf(),
        ensures
            final(self).wf(),
            old(self).same_config(*final(self)),
            r is Ok <==> admin == old(self).admin,
            r is Err ==> *final(self) == *old(self),
            r == Err::<(), AdRegistryError>(AdRegistryError::Unauthorized) <==> admin != old(
                self,
            ).admin,
            r is Ok ==> final(self).flag_threshold == threshold && final(self).contents@ == old(
                self,
            ).contents@,
    {
        if admin != self.admin {
            return Err(AdRegistryError::Unauthorized);
        }
        self.flag_threshold = threshold;
        Ok(())
    }
}

/// Linear scan for a reporter's flag record.
fn find_flag(flags: &Vec<FlagEntry>, reporter: u64) -> (r: Option<usize>)
    ensures
        r matches Some(i) ==> i < flags@.len() && flags@[i as int].reporter == reporter,
        r is None ==> forall|j: int| 0 <= j < flags@.len() ==> flags@[j].reporter != reporter,
{
    let mut i: usize = 0;
    while i < flags.len()
        invariant
            i <= flags.len(),
            forall|j: int| 0 <= j < i ==> flags@[j].reporter != reporter,
        decreases flags.len() - i,
    {
        if flags[i].reporter == reporter {
            return Some(i);
        }
        i = i + 1;
    }
    None
}

} // verus!
