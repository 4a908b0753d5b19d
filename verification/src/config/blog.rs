use vstd::prelude::*;

verus! {

/// The blogs that the server hosts, and the folder of the server's own posts.
#[derive(Clone, Debug, PartialEq, Eq)]
pub struct Config {
    pub blog: Vec<Blog>,
    pub application: String,
}

/// The configuration of the blogs, as the server's state names it.
pub type BlogConfig = Config;

/// A blog: the folder of its posts and the id of the user it belongs to.
#[derive(Clone, Debug, PartialEq, Eq)]
pub struct Blog {
    pub path: String,
    pub user: String,
}

impl Config {
    /// The first blog that belongs to `user`, or `None` when none does.
    pub fn blog_for_user(&self, user: &str) -> (r: Option<Blog>)
        ensures
            match r {
                Some(b) => exists|k: int|
                    0 <= k < self.blog@.len() && self.blog@[k].user@ == user@
                    && b.path@ == self.blog@[k].path@ && b.user@ == self.blog@[k].user@
                    && forall|m: int| 0 <= m < k ==> (#[trigger] self.blog@[m]).user@ != user@,
                None => forall|m: int| 0 <= m < self.blog@.len() ==> (#[trigger] self.blog@[m]).user@ != user@,
            },
    {
        let n = self.blog.len();
        let target = String::from_str(user);
        let mut k: usize = 0;
        while k < n
            invariant
                n == self.blog@.len(),
                target@ == user@,
                k <= n,
                forall|m: int| 0 <= m < k ==> (#[trigger] self.blog@[m]).user@ != user@,
            decreases n - k,
        {
            if self.blog[k].user.eq(&target) {
                let b = Blog { path: self.blog[k].path.clone(), user: self.blog[k].user.clone() };
                assert(self.blog@[k as int].user@ == user@);
                return Some(b);
            }
            k = k + 1;
        }
        None
    }
}

} // verus!
