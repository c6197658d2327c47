//! Blueprints: named, ordered lists of references to resources, and the
//! store that holds them in the order in which they were made.

use vstd::prelude::*;
use vstd::string::*;
use crate::text::{lemma_views_push, views};

verus! {

/// The six kinds of resource, in their order of priority.
#[derive(Debug, Clone, Copy, PartialEq, Eq, Structural)]
pub enum ResourceType {
    Ec2,
    Network,
    SecurityGroup,
    LoadBalancer,
    Ecr,
    Asg,
}

impl ResourceType {
    /// The kind's place in the order of priority, from 0 for the first.
    pub open spec fn rank(self) -> int {
        match self {
            ResourceType::Ec2 => 0,
            ResourceType::Network => 1,
            ResourceType::SecurityGroup => 2,
            ResourceType::LoadBalancer => 3,
            ResourceType::Ecr => 4,
            ResourceType::Asg => 5,
        }
    }

    /// The name by which the interface offers the kind.
    pub open spec fn label(self) -> Seq<char> {
        match self {
            ResourceType::Ec2 => "EC2"@,
            ResourceType::Network => "Network"@,
            ResourceType::SecurityGroup => "Security Group"@,
            ResourceType::LoadBalancer => "Load Balancer"@,
            ResourceType::Ecr => "ECR"@,
            ResourceType::Asg => "ASG"@,
        }
    }

    /// The name by which the interface offers the kind.
    pub fn display(&self) -> (r: &'static str)
        ensures
            r@ == self.label(),
    {
        match self {
            ResourceType::Ec2 => "EC2",
            ResourceType::Network => "Network",
            ResourceType::SecurityGroup => "Security Group",
            ResourceType::LoadBalancer => "Load Balancer",
            ResourceType::Ecr => "ECR",
            ResourceType::Asg => "ASG",
        }
    }
}

/// A reference to one resource.
#[derive(Debug)]
pub struct BlueprintResource {
    pub resource_type: ResourceType,
    pub region: String,
    pub resource_id: String,
    pub resource_name: String,
}

/// A resource reference as plain values.
pub struct BlueprintResourceView {
    pub resource_type: ResourceType,
    pub region: Seq<char>,
    pub resource_id: Seq<char>,
    pub resource_name: Seq<char>,
}

impl View for BlueprintResource {
    type V = BlueprintResourceView;

    open spec fn view(&self) -> BlueprintResourceView {
        BlueprintResourceView {
            resource_type: self.resource_type,
            region: self.region@,
            resource_id: self.resource_id@,
            resource_name: self.resource_name@,
        }
    }
}

impl Clone for BlueprintResource {
    fn clone(&self) -> (r: Self)
        ensures
            r == *self,
    {
        BlueprintResource {
            resource_type: self.resource_type,
            region: self.region.clone(),
            resource_id: self.resource_id.clone(),
            resource_name: self.resource_name.clone(),
        }
    }
}

impl BlueprintResourceView {
    /// The name under which the reference is listed: the resource's name,
    /// or its identifier where it has no name.
    pub open spec fn title(self) -> Seq<char> {
        if self.resource_name.len() == 0 {
            self.resource_id
        } else {
            self.resource_name
        }
    }
}

/// A named, ordered list of resource references. A resource may occur more
/// than once.
#[derive(Debug)]
pub struct Blueprint {
    pub name: String,
    pub resources: Vec<BlueprintResource>,
}

/// A blueprint as plain values.
pub struct BlueprintView {
    pub name: Seq<char>,
    pub resources: Seq<BlueprintResourceView>,
}

impl View for Blueprint {
    type V = BlueprintView;

    open spec fn view(&self) -> BlueprintView {
        BlueprintView { name: self.name@, resources: views(self.resources@) }
    }
}

impl BlueprintView {
    /// The blueprint with `resource` added at the end.
    pub open spec fn with_resource(self, resource: BlueprintResourceView) -> BlueprintView {
        BlueprintView { resources: self.resources.push(resource), ..self }
    }

    /// The blueprint without the resource at `index`; the blueprint itself
    /// where it has no such resource.
    pub open spec fn without_resource(self, index: int) -> BlueprintView {
        if 0 <= index < self.resources.len() {
            BlueprintView { resources: self.resources.remove(index), ..self }
        } else {
            self
        }
    }

    /// Whether the resource at `index` can change places with the one
    /// before it.
    pub open spec fn can_move_up(self, index: int) -> bool {
        0 < index < self.resources.len()
    }

    /// Whether the resource at `index` can change places with the one
    /// after it.
    pub open spec fn can_move_down(self, index: int) -> bool {
        0 <= index && index + 1 < self.resources.len()
    }

    /// The blueprint with the resources at `i` and `j` in each other's
    /// place.
    pub open spec fn swapped(self, i: int, j: int) -> BlueprintView {
        BlueprintView {
            resources: self.resources.update(i, self.resources[j]).update(j, self.resources[i]),
            ..self
        }
    }
}

impl Clone for Blueprint {
    fn clone(&self) -> (r: Self)
        ensures
            r@ == self@,
    {
        let mut resources: Vec<BlueprintResource> = Vec::new();
        let n: usize = self.resources.len();
        let mut i: usize = 0;
        while i < n
            invariant
                n == self.resources@.len(),
                i <= n,
                resources@ == self.resources@.take(i as int),
            decreases n - i,
        {
            resources.push(self.resources[i].clone());
            i += 1;
            assert(resources@ =~= self.resources@.take(i as int));
        }
        assert(self.resources@.take(n as int) == self.resources@);
        Blueprint { name: self.name.clone(), resources }
    }
}

impl Blueprint {
    /// A blueprint of the given name with no resources.
    pub fn new(name: String) -> (r: Blueprint)
        ensures
            r@ == (BlueprintView { name: name@, resources: Seq::empty() }),
    {
        let r = Blueprint { name, resources: Vec::new() };
        assert(r@.resources =~= Seq::empty());
        r
    }

    /// Adds a resource at the end.
    pub fn add_resource(&mut self, resource: BlueprintResource)
        ensures
            final(self)@ == old(self)@.with_resource(resource@),
    {
        proof {
            lemma_views_push(self.resources@, resource);
        }
        self.resources.push(resource);
    }

    /// Removes the resource at `index`; does nothing where there is none.
    pub fn remove_resource(&mut self, index: usize)
        ensures
            final(self)@ == old(self)@.without_resource(index as int),
    {
        if index < self.resources.len() {
            self.resources.remove(index);
            assert(views(self.resources@) =~= views(old(self).resources@).remove(index as int));
        }
    }

    /// Lets the resource at `index` change places with the one before it.
    /// Returns whether it did: the first resource and an index beyond the
    /// list stay where they are.
    pub fn move_up(&mut self, index: usize) -> (moved: bool)
        ensures
            moved == old(self)@.can_move_up(index as int),
            moved ==> final(self)@ == old(self)@.swapped(index as int, index - 1),
            !moved ==> *final(self) == *old(self),
    {
        if index == 0 || index >= self.resources.len() {
            return false;
        }
        let resource = self.resources.remove(index);
        self.resources.insert(index - 1, resource);
        assert(views(self.resources@) =~= views(old(self).resources@).update(
            index as int,
            views(old(self).resources@)[index - 1],
        ).update(index - 1, views(old(self).resources@)[index as int]));
        true
    }

    /// Lets the resource at `index` change places with the one after it.
    /// Returns whether it did: the last resource and an index beyond the
    /// list stay where they are.
    pub fn move_down(&mut self, index: usize) -> (moved: bool)
        ensures
            moved == old(self)@.can_move_down(index as int),
            moved ==> final(self)@ == old(self)@.swapped(index as int, index + 1),
            !moved ==> *final(self) == *old(self),
    {
        let n: usize = self.resources.len();
        if n == 0 || index >= n - 1 {
            return false;
        }
        let resource = self.resources.remove(index);
        self.resources.insert(index + 1, resource);
        assert(views(self.resources@) =~= views(old(self).resources@).update(
            index as int,
            views(old(self).resources@)[index + 1],
        ).update(index + 1, views(old(self).resources@)[index as int]));
        true
    }
}

/// The blueprints, in the order in which they were made.
#[derive(Debug)]
pub struct BlueprintStore {
    pub blueprints: Vec<Blueprint>,
}

impl View for BlueprintStore {
    type V = Seq<BlueprintView>;

    open spec fn view(&self) -> Seq<BlueprintView> {
        views(self.blueprints@)
    }
}

impl Clone for BlueprintStore {
    fn clone(&self) -> (r: Self)
        ensures
            r@ == self@,
    {
        let mut blueprints: Vec<Blueprint> = Vec::new();
        let n: usize = self.blueprints.len();
        let mut i: usize = 0;
        assert(views(blueprints@) =~= self@.take(0));
        while i < n
            invariant
                n == self.blueprints@.len(),
                i <= n,
                views(blueprints@) == self@.take(i as int),
            decreases n - i,
        {
            let ghost prior = blueprints@;
            blueprints.push(self.blueprints[i].clone());
            proof {
                lemma_views_push(prior, blueprints@.last());
                assert(blueprints@ == prior.push(blueprints@.last()));
            }
            i += 1;
            assert(views(blueprints@) =~= self@.take(i as int));
        }
        assert(self@.take(n as int) == self@);
        BlueprintStore { blueprints }
    }
}

impl Default for BlueprintStore {
    fn default() -> (r: BlueprintStore)
        ensures
            r@ == Seq::<BlueprintView>::empty(),
    {
        BlueprintStore::new()
    }
}

impl BlueprintStore {
    /// A store with no blueprints.
    pub fn new() -> (r: BlueprintStore)
        ensures
            r@ == Seq::<BlueprintView>::empty(),
    {
        let r = BlueprintStore { blueprints: Vec::new() };
        assert(r@ =~= Seq::empty());
        r
    }

    /// The number of blueprints.
    pub fn len(&self) -> (r: usize)
        ensures
            r == self@.len(),
    {
        self.blueprints.len()
    }

    /// Adds a blueprint after those the store holds.
    pub fn add_blueprint(&mut self, blueprint: Blueprint)
        ensures
            final(self)@ == old(self)@.push(blueprint@),
    {
        proof {
            lemma_views_push(self.blueprints@, blueprint);
        }
        self.blueprints.push(blueprint);
    }

    /// Removes the blueprint at `index`, so that those after it move down
    /// by one place; does nothing where there is none.
    pub fn remove_blueprint(&mut self, index: usize)
        ensures
            final(self)@ == if index < old(self)@.len() {
                old(self)@.remove(index as int)
            } else {
                old(self)@
            },
    {
        if index < self.blueprints.len() {
            self.blueprints.remove(index);
            assert(self@ =~= old(self)@.remove(index as int));
        }
    }

    /// The blueprint at `index`.
    pub fn get_blueprint(&self, index: usize) -> (r: Option<&Blueprint>)
        ensures
            r == if index < self.blueprints@.len() {
                Some(&self.blueprints@[index as int])
            } else {
                None
            },
    {
        if index < self.blueprints.len() {
            Some(&self.blueprints[index])
        } else {
            None
        }
    }

    /// Puts `blueprint` in the place of the blueprint at `index`. Returns
    /// whether it did: where the store has no such place it stays as it is.
    pub fn replace_blueprint(&mut self, index: usize, blueprint: Blueprint) -> (replaced: bool)
        ensures
            replaced == (index < old(self)@.len()),
            final(self)@ == if replaced {
                old(self)@.update(index as int, blueprint@)
            } else {
                old(self)@
            },
    {
        if index < self.blueprints.len() {
            self.blueprints[index] = blueprint;
            assert(self@ =~= old(self)@.update(index as int, blueprint@));
            true
        } else {
            false
        }
    }
}

} // verus!
