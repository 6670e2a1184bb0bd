//! The two products whose configuration may govern the forwarding, and the
//! well-known places where each keeps it.

use vstd::prelude::*;

verus! {

/// A product that may be installed on the host.
#[derive(Clone, Copy, Debug, PartialEq, Eq, Structural)]
pub enum Product {
    /// The virtualisation product. Its notification configuration is the
    /// system of record: it is never suppressed.
    Pve,
    /// The backup product. Its notification integration is pending, so it
    /// stands back behind `Pve` until it has a configuration of its own.
    Pbs,
}

/// One of the two notification configuration files that a product keeps.
#[derive(Clone, Copy, Debug, PartialEq, Eq, Structural)]
pub enum ConfigFile {
    /// Targets and matchers, readable by unprivileged users.
    Public,
    /// Secrets of the targets, readable by the superuser only.
    Private,
}

/// The directory whose existence marks a product as installed.
pub open spec fn marker_dir_of(product: Product) -> Seq<char> {
    match product {
        Product::Pve => "/etc/pve"@,
        Product::Pbs => "/etc/proxmox-backup"@,
    }
}

/// The path of a product's notification configuration file.
pub open spec fn config_path_of(product: Product, file: ConfigFile) -> Seq<char> {
    match (product, file) {
        (Product::Pve, ConfigFile::Public) => "/etc/pve/notifications.cfg"@,
        (Product::Pve, ConfigFile::Private) => "/etc/pve/priv/notifications.cfg"@,
        (Product::Pbs, ConfigFile::Public) => "/etc/proxmox-backup/notifications.cfg"@,
        (Product::Pbs, ConfigFile::Private) => "/etc/proxmox-backup/notifications-priv.cfg"@,
    }
}

impl Product {
    /// The directory whose existence marks this product as installed.
    pub fn marker_dir(self) -> (path: &'static str)
        ensures
            path@ == marker_dir_of(self),
    {
        match self {
            Product::Pve => "/etc/pve",
            Product::Pbs => "/etc/proxmox-backup",
        }
    }

    /// The path of this product's notification configuration file.
    pub fn config_path(self, file: ConfigFile) -> (path: &'static str)
        ensures
            path@ == config_path_of(self, file),
    {
        match self {
            Product::Pve => match file {
                ConfigFile::Public => "/etc/pve/notifications.cfg",
                ConfigFile::Private => "/etc/pve/priv/notifications.cfg",
            },
            Product::Pbs => match file {
                ConfigFile::Public => "/etc/proxmox-backup/notifications.cfg",
                ConfigFile::Private => "/etc/proxmox-backup/notifications-priv.cfg",
            },
        }
    }
}

/// Which products are installed, as found once at the start of a run.
#[derive(Clone, Copy, Debug, PartialEq, Eq, Structural)]
pub struct ProductPresence {
    pub pve: bool,
    pub pbs: bool,
}

impl ProductPresence {
    /// The flag of one product.
    pub open spec fn holds(self, product: Product) -> bool {
        match product {
            Product::Pve => self.pve,
            Product::Pbs => self.pbs,
        }
    }

    /// The same flags, but for that of one product.
    pub open spec fn updated(self, product: Product, installed: bool) -> ProductPresence {
        match product {
            Product::Pve => ProductPresence { pve: installed, pbs: self.pbs },
            Product::Pbs => ProductPresence { pve: self.pve, pbs: installed },
        }
    }

    /// The presence in which no product has been found.
    pub fn none() -> (presence: ProductPresence)
        ensures
            presence == (ProductPresence { pve: false, pbs: false }),
    {
        ProductPresence { pve: false, pbs: false }
    }

    /// Records what the probe of one product's marker directory found.
    pub fn with(self, product: Product, installed: bool) -> (presence: ProductPresence)
        ensures
            presence == self.updated(product, installed),
    {
        match product {
            Product::Pve => ProductPresence { pve: installed, pbs: self.pbs },
            Product::Pbs => ProductPresence { pve: self.pve, pbs: installed },
        }
    }

    /// Tells whether a product is installed.
    pub fn has(&self, product: Product) -> (installed: bool)
        ensures
            installed == self.holds(product),
    {
        match product {
            Product::Pve => self.pve,
            Product::Pbs => self.pbs,
        }
    }

    /// Tells whether any product is installed.
    pub fn any(&self) -> (found: bool)
        ensures
            found == (self.pve || self.pbs),
    {
        self.pve || self.pbs
    }
}

} // verus!
