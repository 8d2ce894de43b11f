/*
 * Plain C functions for the calls into libfabric. Most functions of libfabric
 * are inline in its headers and have no linkage of their own.
 *
 * Handles are untyped. Every object of libfabric starts with its `struct fid`,
 * so that a pointer to the object is a pointer to its fid.
 */

#include <stdint.h>
#include <string.h>
#include <sys/types.h>

#include <rdma/fabric.h>
#include <rdma/fi_cm.h>
#include <rdma/fi_domain.h>
#include <rdma/fi_endpoint.h>
#include <rdma/fi_eq.h>
#include <rdma/fi_errno.h>
#include <rdma/fi_rma.h>

uint32_t ofi_version(void) { return fi_version(); }

const char *ofi_error_text(int code) { return fi_strerror(code); }

void *ofi_dupinfo(const void *info) { return fi_dupinfo(info); }

int ofi_getinfo(void *hints_handle, int rdm, int rma, int msg, int hmem,
                int local_mr, const char *provider, void **info,
                int *granted_rma) {
  struct fi_info *hints = hints_handle;
  struct fi_info *found = NULL;
  int ret;

  if (rdm)
    hints->ep_attr->type = FI_EP_RDM;
  hints->caps = (rma ? FI_RMA : 0) | (msg ? FI_MSG : 0) | (hmem ? FI_HMEM : 0);
  hints->mode = local_mr ? FI_LOCAL_MR : 0;
  if (provider)
    hints->fabric_attr->prov_name = strdup(provider);

  ret = fi_getinfo(fi_version(), NULL, NULL, 0, hints, &found);
  *info = found;
  *granted_rma = found && (found->caps & FI_RMA) != 0;
  return ret;
}

void ofi_freeinfo(void *info) { fi_freeinfo(info); }

int ofi_fabric(void *info, void **fabric) {
  struct fid_fabric *opened = NULL;
  int ret = fi_fabric(((struct fi_info *)info)->fabric_attr, &opened, NULL);
  *fabric = opened;
  return ret;
}

int ofi_domain(void *fabric, void *info, void **domain) {
  struct fid_domain *opened = NULL;
  int ret = fi_domain(fabric, info, &opened, NULL);
  *domain = opened;
  return ret;
}

int ofi_av_open(void *domain, void **av) {
  struct fi_av_attr attr;
  struct fid_av *opened = NULL;
  int ret;

  memset(&attr, 0, sizeof(attr));
  attr.type = FI_AV_UNSPEC;
  ret = fi_av_open(domain, &attr, &opened, NULL);
  *av = opened;
  return ret;
}

int ofi_cq_open(void *domain, size_t size, void **cq) {
  struct fi_cq_attr attr;
  struct fid_cq *opened = NULL;
  int ret;

  memset(&attr, 0, sizeof(attr));
  attr.size = size;
  attr.format = FI_CQ_FORMAT_DATA;
  ret = fi_cq_open(domain, &attr, &opened, NULL);
  *cq = opened;
  return ret;
}

int ofi_endpoint(void *domain, void *info, void **ep) {
  struct fid_ep *opened = NULL;
  int ret = fi_endpoint(domain, info, &opened, NULL);
  *ep = opened;
  return ret;
}

int ofi_ep_bind(void *ep, void *fid, int transmit, int recv) {
  return fi_ep_bind(ep, fid, (transmit ? FI_TRANSMIT : 0) | (recv ? FI_RECV : 0));
}

int ofi_enable(void *ep) { return fi_enable(ep); }

int ofi_close(void *fid) { return fi_close(fid); }

int ofi_getname(void *ep, void *addr, size_t *len) {
  return fi_getname(&((struct fid_ep *)ep)->fid, addr, len);
}

int ofi_av_insert(void *av, const void *addr, uint64_t *fi_addr) {
  return fi_av_insert(av, addr, 1, fi_addr, 0, NULL);
}

static uint64_t access_flags(int remote_read, int remote_write, int read,
                             int write) {
  return (remote_read ? FI_REMOTE_READ : 0) |
         (remote_write ? FI_REMOTE_WRITE : 0) | (read ? FI_READ : 0) |
         (write ? FI_WRITE : 0);
}

int ofi_mr_reg(void *domain, const void *addr, size_t size, int remote_read,
               int remote_write, int read, int write, uint64_t key, void **mr) {
  struct fid_mr *opened = NULL;
  uint64_t access = access_flags(remote_read, remote_write, read, write);
  int ret = fi_mr_reg(domain, addr, size, access, 0, key, 0, &opened, NULL);
  *mr = opened;
  return ret;
}

int ofi_mr_regattr(void *domain, const void *addr, size_t size, int remote_read,
                   int remote_write, int read, int write, uint64_t key,
                   int cuda, int device, void **mr) {
  struct iovec iov = {.iov_base = (void *)addr, .iov_len = size};
  struct fi_mr_attr attr;
  struct fid_mr *opened = NULL;
  int ret;

  memset(&attr, 0, sizeof(attr));
  attr.mr_iov = &iov;
  attr.iov_count = 1;
  attr.access = access_flags(remote_read, remote_write, read, write);
  attr.requested_key = key;
  attr.iface = cuda ? FI_HMEM_CUDA : FI_HMEM_SYSTEM;
  attr.device.cuda = device;
  ret = fi_mr_regattr(domain, &attr, 0, &opened);
  *mr = opened;
  return ret;
}

uint64_t ofi_mr_key(void *mr) { return fi_mr_key(mr); }

void *ofi_mr_desc(void *mr) { return fi_mr_desc(mr); }

ssize_t ofi_write(void *ep, const void *buf, size_t len, void *desc,
                  uint64_t peer, uint64_t remote_addr, uint64_t remote_key,
                  void *context) {
  return fi_write(ep, buf, len, desc, peer, remote_addr, remote_key, context);
}

ssize_t ofi_read(void *ep, void *buf, size_t len, void *desc, uint64_t peer,
                 uint64_t remote_addr, uint64_t remote_key, void *context) {
  return fi_read(ep, buf, len, desc, peer, remote_addr, remote_key, context);
}

ssize_t ofi_send(void *ep, const void *buf, size_t len, void *desc,
                 uint64_t peer, void *context) {
  return fi_send(ep, buf, len, desc, peer, context);
}

ssize_t ofi_recv(void *ep, void *buf, size_t len, void *desc, uint64_t peer,
                 void *context) {
  return fi_recv(ep, buf, len, desc, peer, context);
}

ssize_t ofi_cq_read(void *cq) {
  struct fi_cq_data_entry entry;

  memset(&entry, 0, sizeof(entry));
  return fi_cq_read(cq, &entry, 1);
}

void ofi_cq_readerr(void *cq, int *err, int *prov_errno) {
  struct fi_cq_err_entry entry;

  memset(&entry, 0, sizeof(entry));
  fi_cq_readerr(cq, &entry, 0);
  *err = entry.err;
  *prov_errno = entry.prov_errno;
}
