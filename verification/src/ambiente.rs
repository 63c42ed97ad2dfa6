//! Ambiente de execução: escopos aninhados com suporte a closures.
//!
//! Todos os escopos de uma execução vivem num mesmo `Ambiente`, e cada um é
//! identificado pelo seu índice; uma closure guarda o índice do escopo em que
//! foi criada. O escopo global é o de índice 0, e o pai de um escopo sempre foi
//! criado antes dele.

use vstd::prelude::*;
use vstd::string::*;

verus! {

/// Resultado de uma tentativa de atribuição.
#[derive(Clone, Copy, Debug, PartialEq, Eq, Structural)]
pub enum ResultadoAtrib {
    /// A atribuição foi feita.
    Feita,
    NaoExiste,
    Constante,
}

/// Uma variável de um escopo, com a marca de constante.
pub struct Entrada<V> {
    pub nome: String,
    pub valor: V,
    pub constante: bool,
}

/// Um escopo: suas variáveis, em ordem de criação, e o escopo pai.
pub struct Escopo<V> {
    pub entradas: Vec<Entrada<V>>,
    pub pai: Option<usize>,
}

/// Todos os escopos de uma execução.
pub struct Ambiente<V> {
    escopos: Vec<Escopo<V>>,
}

/// O índice do escopo global.
pub const ESCOPO_GLOBAL: usize = 0;

/// A posição da variável `nome` entre as entradas de um escopo (a última, se
/// houvesse mais de uma).
pub open spec fn local<V>(es: Seq<Entrada<V>>, nome: Seq<char>) -> Option<int>
    decreases es.len(),
{
    if es.len() == 0 {
        None
    } else if es.last().nome@ == nome {
        Some(es.len() - 1)
    } else {
        local(es.drop_last(), nome)
    }
}

/// Os nomes das entradas, em ordem.
pub open spec fn nomes_de<V>(es: Seq<Entrada<V>>) -> Seq<Seq<char>> {
    es.map_values(|x: Entrada<V>| x.nome@)
}

/// As entradas de um escopo depois de definir `x` nele: a variável de mesmo
/// nome é substituída; se não houver, `x` entra no fim.
pub open spec fn entradas_apos_definir<V>(es: Seq<Entrada<V>>, x: Entrada<V>) -> Seq<Entrada<V>> {
    match local(es, x.nome@) {
        Some(j) => es.update(j, x),
        None => es.push(x),
    }
}

proof fn lema_local<V>(es: Seq<Entrada<V>>, nome: Seq<char>)
    ensures
        local(es, nome) matches Some(j) ==> 0 <= j < es.len() && es[j].nome@ == nome && forall|
            k: int,
        | j < k < es.len() ==> (#[trigger] es[k]).nome@ != nome,
        local(es, nome) is None ==> forall|k: int| 0 <= k < es.len() ==> (#[trigger] es[k]).nome@ != nome,
    decreases es.len(),
{
    if es.len() > 0 {
        let d = es.drop_last();
        lema_local(d, nome);
        assert(es.last() == es[es.len() - 1]);
        if es.last().nome@ != nome {
            match local(d, nome) {
                Some(j) => {
                    assert forall|k: int| j < k < es.len() implies (#[trigger] es[k]).nome@ != nome by {
                        if k < es.len() - 1 {
                            assert(d[k] == es[k]);
                        }
                    }
                    assert(d[j] == es[j]);
                },
                None => {
                    assert forall|k: int| 0 <= k < es.len() implies (#[trigger] es[k]).nome@ != nome by {
                        if k < es.len() - 1 {
                            assert(d[k] == es[k]);
                        }
                    }
                },
            }
        }
    }
}

/// `local` é caracterizada pela última posição com o nome.
proof fn lema_local_caracteriza<V>(es: Seq<Entrada<V>>, nome: Seq<char>, j: int)
    requires
        0 <= j < es.len(),
        es[j].nome@ == nome,
        forall|k: int| j < k < es.len() ==> (#[trigger] es[k]).nome@ != nome,
    ensures
        local(es, nome) == Some(j),
    decreases es.len(),
{
    if j < es.len() - 1 {
        assert(es.last() == es[es.len() - 1]);
        assert forall|k: int| j < k < es.len() - 1 implies (#[trigger] es.drop_last()[k]).nome@ != nome by {
            assert(es.drop_last()[k] == es[k]);
        }
        lema_local_caracteriza(es.drop_last(), nome, j);
    }
}

proof fn lema_local_ausente<V>(es: Seq<Entrada<V>>, nome: Seq<char>)
    requires
        forall|k: int| 0 <= k < es.len() ==> (#[trigger] es[k]).nome@ != nome,
    ensures
        local(es, nome) is None,
    decreases es.len(),
{
    if es.len() > 0 {
        assert(es.last() == es[es.len() - 1]);
        assert forall|k: int| 0 <= k < es.len() - 1 implies (#[trigger] es.drop_last()[k]).nome@ != nome by {
            assert(es.drop_last()[k] == es[k]);
        }
        lema_local_ausente(es.drop_last(), nome);
    }
}

impl<V> Ambiente<V> {
    /// Quantos escopos existem.
    pub closed spec fn num_escopos(&self) -> nat {
        self.escopos@.len()
    }

    /// As variáveis do escopo `e`, em ordem de criação.
    pub closed spec fn entradas(&self, e: int) -> Seq<Entrada<V>> {
        self.escopos@[e].entradas@
    }

    /// O pai do escopo `e`.
    pub closed spec fn pai(&self, e: int) -> Option<usize> {
        self.escopos@[e].pai
    }

    /// Há um escopo global, e o pai de cada escopo é anterior a ele.
    pub open spec fn bem_formado(&self) -> bool {
        &&& self.num_escopos() >= 1
        &&& forall|e: int|
            0 <= e < self.num_escopos() ==> (#[trigger] self.pai(e) matches Some(p) ==> p < e)
    }

    /// `e` identifica um escopo existente.
    pub open spec fn valido(&self, e: int) -> bool {
        0 <= e < self.num_escopos()
    }

    /// Onde está a variável `nome` vista do escopo `e`: o escopo (o próprio ou
    /// o ancestral mais próximo que a define) e a posição dela nele.
    pub open spec fn busca(&self, e: int, nome: Seq<char>) -> Option<(int, int)>
        decreases e,
    {
        if e < 0 {
            None
        } else {
            match local(self.entradas(e), nome) {
                Some(j) => Some((e, j)),
                None => match self.pai(e) {
                    Some(p) => if p < e {
                        self.busca(p as int, nome)
                    } else {
                        None
                    },
                    None => None,
                },
            }
        }
    }

    /// O valor da variável `nome` vista do escopo `e`, se ela existir.
    pub open spec fn valor_de(&self, e: int, nome: Seq<char>) -> Option<V> {
        match self.busca(e, nome) {
            Some((k, j)) => Some(self.entradas(k)[j].valor),
            None => None,
        }
    }

    /// Se a variável `nome` vista do escopo `e` é uma constante.
    pub open spec fn eh_constante(&self, e: int, nome: Seq<char>) -> bool {
        match self.busca(e, nome) {
            Some((k, j)) => self.entradas(k)[j].constante,
            None => false,
        }
    }

    /// Os nomes visíveis a partir do escopo `e`: os do próprio escopo, depois os
    /// dos ancestrais.
    pub open spec fn nomes_visiveis(&self, e: int) -> Seq<Seq<char>>
        decreases e,
    {
        if e < 0 {
            Seq::empty()
        } else {
            nomes_de(self.entradas(e)) + match self.pai(e) {
                Some(p) => if p < e {
                    self.nomes_visiveis(p as int)
                } else {
                    Seq::empty()
                },
                None => Seq::empty(),
            }
        }
    }

    /// Os escopos diferem no máximo no escopo `e`, e nenhum pai muda.
    pub open spec fn so_muda(&self, outro: &Self, e: int) -> bool {
        &&& self.num_escopos() == outro.num_escopos()
        &&& forall|k: int| 0 <= k < self.num_escopos() ==> #[trigger] self.pai(k) == outro.pai(k)
        &&& forall|k: int|
            0 <= k < self.num_escopos() && k != e ==> #[trigger] self.entradas(k) == outro.entradas(k)
    }

    /// `self` é o ambiente `antes` com `x` definida no escopo `e`.
    pub open spec fn apos_definir(&self, antes: &Self, e: int, x: Entrada<V>) -> bool {
        &&& self.so_muda(antes, e)
        &&& self.entradas(e) == entradas_apos_definir(antes.entradas(e), x)
    }

    /// `self` é o ambiente `antes` depois de atribuir `valor` a `nome` a partir
    /// do escopo `e`, com a resposta `r`: sem a variável, nada muda e a resposta
    /// é `NaoExiste`; numa constante, nada muda e a resposta é `Constante`; senão
    /// o valor da variável encontrada passa a ser `valor`.
    pub open spec fn apos_atribuir(
        &self,
        antes: &Self,
        e: int,
        nome: Seq<char>,
        valor: V,
        r: ResultadoAtrib,
    ) -> bool {
        match antes.busca(e, nome) {
            None => r == ResultadoAtrib::NaoExiste && *self == *antes,
            Some((k, j)) => if antes.entradas(k)[j].constante {
                r == ResultadoAtrib::Constante && *self == *antes
            } else {
                &&& r == ResultadoAtrib::Feita
                &&& self.so_muda(antes, k)
                &&& self.entradas(k) == antes.entradas(k).update(
                    j,
                    Entrada { nome: antes.entradas(k)[j].nome, valor, constante: false },
                )
            },
        }
    }

    /// `self` é o ambiente `antes` com um escopo novo `e`, vazio, filho de `pai`.
    pub open spec fn apos_com_pai(&self, antes: &Self, pai: int, e: int) -> bool {
        &&& e == antes.num_escopos()
        &&& self.num_escopos() == antes.num_escopos() + 1
        &&& self.entradas(e).len() == 0
        &&& self.pai(e) matches Some(p) && p == pai
        &&& forall|k: int|
            0 <= k < antes.num_escopos() ==> #[trigger] self.entradas(k) == antes.entradas(k)
                && self.pai(k) == antes.pai(k)
    }

    /// Cria o ambiente com o escopo global (sem pai e sem variáveis).
    pub fn global() -> (a: Ambiente<V>)
        ensures
            a.bem_formado(),
            a.num_escopos() == 1,
            a.entradas(ESCOPO_GLOBAL as int).len() == 0,
            a.pai(ESCOPO_GLOBAL as int) is None,
    {
        let mut escopos: Vec<Escopo<V>> = Vec::new();
        escopos.push(Escopo { entradas: Vec::new(), pai: None });
        Ambiente { escopos }
    }

    /// Descarta o escopo mais novo, se não for o global, e diz se descartou.
    /// Como o pai de cada escopo é anterior a ele, nenhum escopo restante tem
    /// o descartado como pai; os demais ficam como estavam.
    pub fn descartar_ultimo(&mut self) -> (r: bool)
        requires
            old(self).bem_formado(),
        ensures
            final(self).bem_formado(),
            r == (old(self).num_escopos() > 1),
            final(self).num_escopos() == (if r { old(self).num_escopos() - 1 } else { old(self).num_escopos() as int }),
            forall|k: int|
                0 <= k < final(self).num_escopos() ==> #[trigger] final(self).entradas(k) == old(self).entradas(k)
                    && final(self).pai(k) == old(self).pai(k),
    {
        if self.escopos.len() > 1 {
            let _ = self.escopos.pop();
            proof {
                assert forall|k: int| 0 <= k < self.num_escopos() implies #[trigger] self.entradas(k) == old(
                    self,
                ).entradas(k) && self.pai(k) == old(self).pai(k) by {
                    assert(self.escopos@[k] == old(self).escopos@[k]);
                }
                assert forall|k: int| 0 <= k < self.num_escopos() implies (#[trigger] self.pai(k) matches Some(
                    p,
                ) ==> p < k) by {
                    assert(self.escopos@[k] == old(self).escopos@[k]);
                    assert(old(self).pai(k) == self.pai(k));
                }
            }
            true
        } else {
            false
        }
    }

    /// Cria um escopo filho de `pai`, vazio, e devolve o seu índice.
    pub fn com_pai(&mut self, pai: usize) -> (e: usize)
        requires
            old(self).bem_formado(),
            old(self).valido(pai as int),
            old(self).num_escopos() < usize::MAX,
        ensures
            final(self).bem_formado(),
            final(self).apos_com_pai(old(self), pai as int, e as int),
    {
        let e = self.escopos.len();
        self.escopos.push(Escopo { entradas: Vec::new(), pai: Some(pai) });
        proof {
            assert forall|k: int| 0 <= k < self.num_escopos() implies (#[trigger] self.pai(k) matches Some(
                p,
            ) ==> p < k) by {
                if k < e {
                    assert(self.escopos@[k] == old(self).escopos@[k]);
                    assert(old(self).pai(k) == self.pai(k));
                }
            }
            assert forall|k: int| 0 <= k < old(self).num_escopos() implies #[trigger] self.entradas(
                k,
            ) == old(self).entradas(k) && self.pai(k) == old(self).pai(k) by {
                assert(self.escopos@[k] == old(self).escopos@[k]);
            }
        }
        e
    }

    /// A posição da variável `nome` no escopo `e`, se ela estiver nele.
    fn procurar_local(&self, e: usize, nome: &String) -> (r: Option<usize>)
        requires
            self.valido(e as int),
        ensures
            r is None <==> local(self.entradas(e as int), nome@) is None,
            r matches Some(j) ==> local(self.entradas(e as int), nome@) == Some(j as int) && j
                < self.entradas(e as int).len(),
    {
        let es = &self.escopos[e].entradas;
        let mut i = es.len();
        while i > 0
            invariant
                i <= es@.len(),
                es@ == self.entradas(e as int),
                forall|k: int| i <= k < es@.len() ==> (#[trigger] es@[k]).nome@ != nome@,
            decreases i,
        {
            if es[i - 1].nome == *nome {
                proof {
                    lema_local_caracteriza(es@, nome@, i - 1);
                }
                return Some(i - 1);
            }
            i = i - 1;
        }
        proof {
            lema_local_ausente(es@, nome@);
        }
        None
    }

    /// Onde está a variável `nome` vista do escopo `e`: o escopo e a posição.
    fn localizar(&self, e: usize, nome: &String) -> (r: Option<(usize, usize)>)
        requires
            self.bem_formado(),
            self.valido(e as int),
        ensures
            r is None <==> self.busca(e as int, nome@) is None,
            r matches Some((k, j)) ==> self.busca(e as int, nome@) == Some((k as int, j as int))
                && self.valido(k as int) && j < self.entradas(k as int).len(),
    {
        let mut atual = e;
        loop
            invariant
                self.bem_formado(),
                self.valido(atual as int),
                self.busca(atual as int, nome@) == self.busca(e as int, nome@),
            decreases atual,
        {
            proof {
                lema_local(self.entradas(atual as int), nome@);
            }
            match self.procurar_local(atual, nome) {
                Some(j) => {
                    return Some((atual, j));
                },
                None => {
                    assert(self.pai(atual as int) == self.escopos@[atual as int].pai);
                    match self.escopos[atual].pai {
                        Some(p) => {
                            atual = p;
                        },
                        None => {
                            return None;
                        },
                    }
                },
            }
        }
    }

    /// Busca um valor, subindo pela cadeia de escopos a partir de `e`.
    pub fn obter(&self, e: usize, nome: &str) -> (r: Option<&V>)
        requires
            self.bem_formado(),
            self.valido(e as int),
        ensures
            r is Some <==> self.busca(e as int, nome@) is Some,
            r matches Some(v) ==> self.valor_de(e as int, nome@) == Some(*v),
    {
        let alvo = String::from_str(nome);
        match self.localizar(e, &alvo) {
            Some((k, j)) => Some(&self.escopos[k].entradas[j].valor),
            None => None,
        }
    }

    /// Atribui a uma variável existente, subindo pela cadeia a partir de `e`.
    /// Respeita constantes: uma constante não muda e a resposta é `Constante`.
    pub fn atribuir(&mut self, e: usize, nome: &str, valor: V) -> (r: ResultadoAtrib)
        requires
            old(self).bem_formado(),
            old(self).valido(e as int),
        ensures
            final(self).bem_formado(),
            final(self).apos_atribuir(old(self), e as int, nome@, valor, r),
    {
        let alvo = String::from_str(nome);
        match self.localizar(e, &alvo) {
            None => ResultadoAtrib::NaoExiste,
            Some((k, j)) => {
                if self.escopos[k].entradas[j].constante {
                    ResultadoAtrib::Constante
                } else {
                    self.escopos[k].entradas[j].valor = valor;
                    proof {
                        assert forall|m: int| 0 <= m < self.num_escopos() && m != k implies #[trigger] self.entradas(
                            m,
                        ) == old(self).entradas(m) by {
                            assert(self.escopos@[m] == old(self).escopos@[m]);
                        }
                        assert forall|m: int| 0 <= m < self.num_escopos() implies #[trigger] self.pai(m)
                            == old(self).pai(m) by {
                            if m != k {
                                assert(self.escopos@[m] == old(self).escopos@[m]);
                            }
                        }
                        assert(self.entradas(k as int) =~= old(self).entradas(k as int).update(
                            j as int,
                            Entrada { nome: old(self).entradas(k as int)[j as int].nome, valor, constante: false },
                        ));
                        assert forall|m: int| 0 <= m < self.num_escopos() implies (#[trigger] self.pai(m) matches Some(
                            p,
                        ) ==> p < m) by {
                            assert(old(self).pai(m) == self.pai(m));
                        }
                    }
                    ResultadoAtrib::Feita
                }
            },
        }
    }

    /// Se `e` identifica um escopo existente.
    pub fn existe(&self, e: usize) -> (r: bool)
        ensures
            r == self.valido(e as int),
    {
        e < self.escopos.len()
    }

    /// Os nomes definidos no próprio escopo `e`, em ordem de criação (usado
    /// para trazer os nomes de um módulo importado).
    pub fn nomes_locais(&self, e: usize) -> (r: Vec<String>)
        requires
            self.valido(e as int),
        ensures
            r@.map_values(|s: String| s@) == nomes_de(self.entradas(e as int)),
    {
        let es = &self.escopos[e].entradas;
        let mut r: Vec<String> = Vec::new();
        let mut i: usize = 0;
        while i < es.len()
            invariant
                es@ == self.entradas(e as int),
                i <= es@.len(),
                r@.map_values(|s: String| s@) == nomes_de(es@).take(i as int),
            decreases es@.len() - i,
        {
            let ghost antes = r@;
            let nome = es[i].nome.clone();
            r.push(nome);
            proof {
                assert(r@ == antes.push(nome));
                assert(r@.map_values(|s: String| s@) =~= antes.map_values(|s: String| s@).push(nome@));
                assert(nomes_de(es@).take(i + 1) =~= nomes_de(es@).take(i as int).push(es@[i as int].nome@));
            }
            i = i + 1;
        }
        assert(nomes_de(es@).take(es@.len() as int) =~= nomes_de(es@));
        r
    }

    /// Todos os nomes visíveis a partir do escopo `e` (para sugestões de erro):
    /// os do próprio escopo, depois os dos ancestrais.
    pub fn nomes_disponiveis(&self, e: usize) -> (r: Vec<String>)
        requires
            self.bem_formado(),
            self.valido(e as int),
        ensures
            r@.map_values(|s: String| s@) == self.nomes_visiveis(e as int),
    {
        let mut r: Vec<String> = Vec::new();
        let ghost mut prefixo: Seq<Seq<char>> = Seq::empty();
        let mut atual = e;
        loop
            invariant
                self.bem_formado(),
                self.valido(atual as int),
                r@.map_values(|s: String| s@) == prefixo,
                prefixo + self.nomes_visiveis(atual as int) == self.nomes_visiveis(e as int),
            decreases atual,
        {
            let es = &self.escopos[atual].entradas;
            let mut i: usize = 0;
            while i < es.len()
                invariant
                    es@ == self.entradas(atual as int),
                    i <= es@.len(),
                    r@.map_values(|s: String| s@) == prefixo + nomes_de(es@).take(i as int),
                decreases es@.len() - i,
            {
                let ghost antes = r@;
                let nome = es[i].nome.clone();
                assert(nome@ == es@[i as int].nome@);
                r.push(nome);
                proof {
                    assert(r@ == antes.push(nome));
                    assert(r@.map_values(|s: String| s@) =~= antes.map_values(|s: String| s@).push(nome@));
                    assert(nomes_de(es@).take(i + 1) =~= nomes_de(es@).take(i as int).push(es@[i as int].nome@));
                    assert(r@.map_values(|s: String| s@) =~= prefixo + nomes_de(es@).take(i + 1));
                }
                i = i + 1;
            }
            proof {
                assert(nomes_de(es@).take(es@.len() as int) =~= nomes_de(es@));
                prefixo = prefixo + nomes_de(es@);
            }
            assert(self.pai(atual as int) == self.escopos@[atual as int].pai);
            match self.escopos[atual].pai {
                Some(p) => {
                    assert(prefixo + self.nomes_visiveis(p as int) =~= self.nomes_visiveis(e as int));
                    atual = p;
                },
                None => {
                    assert(prefixo =~= self.nomes_visiveis(e as int));
                    return r;
                },
            }
        }
    }

    /// Define (ou redefine) uma variável no escopo `e`.
    pub fn definir(&mut self, e: usize, nome: String, valor: V, constante: bool)
        requires
            old(self).bem_formado(),
            old(self).valido(e as int),
        ensures
            final(self).bem_formado(),
            final(self).apos_definir(old(self), e as int, Entrada { nome, valor, constante }),
    {
        proof {
            lema_local(self.entradas(e as int), nome@);
        }
        match self.procurar_local(e, &nome) {
            Some(j) => {
                assert(local(old(self).entradas(e as int), nome@) == Some(j as int));
                self.escopos[e].entradas.set(j, Entrada { nome, valor, constante });
                assert(self.entradas(e as int) == old(self).entradas(e as int).update(
                    j as int,
                    Entrada { nome, valor, constante },
                ));
            },
            None => {
                assert(local(old(self).entradas(e as int), nome@) is None);
                self.escopos[e].entradas.push(Entrada { nome, valor, constante });
                assert(self.entradas(e as int) == old(self).entradas(e as int).push(
                    Entrada { nome, valor, constante },
                ));
            },
        }
        proof {
            assert forall|k: int| 0 <= k < self.num_escopos() && k != e implies #[trigger] self.entradas(
                k,
            ) == old(self).entradas(k) by {
                assert(self.escopos@[k] == old(self).escopos@[k]);
            }
            assert forall|k: int| 0 <= k < self.num_escopos() implies #[trigger] self.pai(k) == old(
                self,
            ).pai(k) by {
                if k != e {
                    assert(self.escopos@[k] == old(self).escopos@[k]);
                }
            }
        }
    }
}

/// Trocar uma entrada por outra de mesmo nome, ou trocar uma entrada sem o nome
/// `m` por outra também sem ele, não muda onde `m` está.
proof fn lema_local_update<V>(es: Seq<Entrada<V>>, j: int, x: Entrada<V>, m: Seq<char>)
    requires
        0 <= j < es.len(),
        (x.nome@ == m) == (es[j].nome@ == m),
    ensures
        local(es.update(j, x), m) == local(es, m),
    decreases es.len(),
{
    let u = es.update(j, x);
    assert(u.last() == u[u.len() - 1]);
    assert(es.last() == es[es.len() - 1]);
    if j < es.len() - 1 {
        assert(u.drop_last() =~= es.drop_last().update(j, x));
        lema_local_update(es.drop_last(), j, x, m);
    } else {
        assert(u.drop_last() =~= es.drop_last());
    }
}

/// Acrescentar uma entrada sem o nome `m` não muda onde `m` está.
proof fn lema_local_push<V>(es: Seq<Entrada<V>>, x: Entrada<V>, m: Seq<char>)
    requires
        x.nome@ != m,
    ensures
        local(es.push(x), m) == local(es, m),
{
    assert(es.push(x).drop_last() =~= es);
}

/// A busca de `m` a partir de `f` só depende dos pais e de onde `m` está em
/// cada escopo até `f`.
proof fn lema_busca_igual<V>(a: &Ambiente<V>, b: &Ambiente<V>, f: int, m: Seq<char>)
    requires
        forall|k: int|
            0 <= k <= f ==> #[trigger] a.pai(k) == b.pai(k) && local(a.entradas(k), m) == local(
                b.entradas(k),
                m,
            ),
    ensures
        a.busca(f, m) == b.busca(f, m),
    decreases f,
{
    if f >= 0 {
        assert(a.pai(f) == b.pai(f));
        match a.pai(f) {
            Some(p) => {
                if p < f {
                    lema_busca_igual(a, b, p as int, m);
                }
            },
            None => {},
        }
    }
}

/// O que a busca encontra é uma entrada com o nome procurado, num escopo até `f`.
proof fn lema_busca<V>(a: &Ambiente<V>, f: int, m: Seq<char>)
    ensures
        a.busca(f, m) matches Some((k, j)) ==> 0 <= k <= f && local(a.entradas(k), m) == Some(j),
    decreases f,
{
    if f >= 0 {
        match local(a.entradas(f), m) {
            Some(_) => {},
            None => match a.pai(f) {
                Some(p) => {
                    if p < f {
                        lema_busca(a, p as int, m);
                    }
                },
                None => {},
            },
        }
    }
}

/// Depois de definir uma variável num escopo, lê-la a partir desse escopo dá
/// o valor definido, com a marca de constante dada.
pub proof fn lei_ler_apos_definir<V>(antes: &Ambiente<V>, depois: &Ambiente<V>, e: int, x: Entrada<V>)
    requires
        antes.bem_formado(),
        antes.valido(e),
        depois.apos_definir(antes, e, x),
    ensures
        depois.valor_de(e, x.nome@) == Some(x.valor),
        depois.eh_constante(e, x.nome@) == x.constante,
{
    let es = antes.entradas(e);
    lema_local(es, x.nome@);
    match local(es, x.nome@) {
        Some(j) => {
            let u = es.update(j, x);
            assert forall|k: int| j < k < u.len() implies (#[trigger] u[k]).nome@ != x.nome@ by {
                assert(u[k] == es[k]);
            }
            lema_local_caracteriza(u, x.nome@, j);
        },
        None => {
            let u = es.push(x);
            lema_local_caracteriza(u, x.nome@, es.len() as int);
        },
    }
}

/// Definir uma variável não muda o que se lê de nenhum outro nome, a partir
/// de nenhum escopo.
pub proof fn lei_definir_preserva_outros<V>(
    antes: &Ambiente<V>,
    depois: &Ambiente<V>,
    e: int,
    x: Entrada<V>,
    f: int,
    m: Seq<char>,
)
    requires
        antes.bem_formado(),
        antes.valido(e),
        antes.valido(f),
        depois.apos_definir(antes, e, x),
        m != x.nome@,
    ensures
        depois.valor_de(f, m) == antes.valor_de(f, m),
        depois.eh_constante(f, m) == antes.eh_constante(f, m),
{
    let es = antes.entradas(e);
    lema_local(es, x.nome@);
    assert forall|k: int|
        0 <= k <= f implies #[trigger] antes.pai(k) == depois.pai(k) && local(antes.entradas(k), m)
        == local(depois.entradas(k), m) by {
        if k == e {
            match local(es, x.nome@) {
                Some(j) => lema_local_update(es, j, x, m),
                None => lema_local_push(es, x, m),
            }
        }
    }
    lema_busca_igual(antes, depois, f, m);
    lema_busca(antes, f, m);
    match antes.busca(f, m) {
        Some((k, j2)) => {
            if k == e {
                lema_local(es, m);
                match local(es, x.nome@) {
                    Some(j) => {
                        assert(j2 != j);
                        assert(depois.entradas(k)[j2] == es[j2]);
                    },
                    None => {
                        assert(depois.entradas(k)[j2] == es[j2]);
                    },
                }
            }
        },
        None => {},
    }
}

/// Depois de atribuir a uma variável que existe e não é constante, lê-la a
/// partir do mesmo escopo dá o valor atribuído.
pub proof fn lei_ler_apos_atribuir<V>(
    antes: &Ambiente<V>,
    depois: &Ambiente<V>,
    e: int,
    nome: Seq<char>,
    valor: V,
    r: ResultadoAtrib,
)
    requires
        antes.bem_formado(),
        antes.valido(e),
        depois.apos_atribuir(antes, e, nome, valor, r),
        r == ResultadoAtrib::Feita,
    ensures
        depois.valor_de(e, nome) == Some(valor),
{
    lema_busca(antes, e, nome);
    let (k, j) = antes.busca(e, nome)->Some_0;
    let es = antes.entradas(k);
    lema_local(es, nome);
    let x = Entrada { nome: es[j].nome, valor, constante: false };
    assert forall|m: int|
        0 <= m <= e implies #[trigger] antes.pai(m) == depois.pai(m) && local(antes.entradas(m), nome)
        == local(depois.entradas(m), nome) by {
        if m == k {
            lema_local_update(es, j, x, nome);
        }
    }
    lema_busca_igual(antes, depois, e, nome);
}

/// Uma constante nunca muda: atribuir a ela responde `Constante` e deixa o
/// ambiente como estava.
pub proof fn lei_constante_nao_muda<V>(
    antes: &Ambiente<V>,
    depois: &Ambiente<V>,
    e: int,
    nome: Seq<char>,
    valor: V,
    r: ResultadoAtrib,
)
    requires
        antes.bem_formado(),
        antes.valido(e),
        depois.apos_atribuir(antes, e, nome, valor, r),
        antes.eh_constante(e, nome),
    ensures
        r == ResultadoAtrib::Constante,
        *depois == *antes,
{
}

/// Atribuir a um nome que não existe responde `NaoExiste` e não muda nada.
pub proof fn lei_atribuir_inexistente<V>(
    antes: &Ambiente<V>,
    depois: &Ambiente<V>,
    e: int,
    nome: Seq<char>,
    valor: V,
    r: ResultadoAtrib,
)
    requires
        antes.bem_formado(),
        antes.valido(e),
        depois.apos_atribuir(antes, e, nome, valor, r),
        antes.valor_de(e, nome) is None,
    ensures
        r == ResultadoAtrib::NaoExiste,
        *depois == *antes,
{
}

/// Um escopo recém-criado vê exatamente o que o seu pai vê.
pub proof fn lei_filho_ve_pai<V>(antes: &Ambiente<V>, depois: &Ambiente<V>, pai: int, f: int, m: Seq<char>)
    requires
        antes.bem_formado(),
        antes.valido(pai),
        depois.apos_com_pai(antes, pai, f),
    ensures
        depois.valor_de(f, m) == antes.valor_de(pai, m),
        depois.eh_constante(f, m) == antes.eh_constante(pai, m),
{
    assert(local(depois.entradas(f), m) is None);
    assert forall|k: int|
        0 <= k <= pai implies #[trigger] antes.pai(k) == depois.pai(k) && local(antes.entradas(k), m)
        == local(depois.entradas(k), m) by {}
    lema_busca_igual(antes, depois, pai, m);
    lema_busca(antes, pai, m);
    assert(pai < f);
    assert(depois.busca(f, m) == depois.busca(pai, m));
    match antes.busca(pai, m) {
        Some((k, j)) => {
            assert(depois.entradas(k) == antes.entradas(k));
        },
        None => {},
    }
}

/// Criar um escopo filho e descartá-lo em seguida deixa os escopos como
/// estavam: o mesmo número de escopos, as mesmas variáveis e os mesmos pais.
/// `b` é o ambiente depois de `com_pai` em `a`; `c`, o de `b` depois de
/// `descartar_ultimo` (que descarta quando há mais de um escopo).
pub proof fn lei_criar_e_descartar<V>(a: Ambiente<V>, b: Ambiente<V>, c: Ambiente<V>, pai: int, e: int)
    requires
        a.bem_formado(),
        b.apos_com_pai(&a, pai, e),
        c.num_escopos() == b.num_escopos() - 1,
        forall|k: int|
            0 <= k < c.num_escopos() ==> #[trigger] c.entradas(k) == b.entradas(k) && c.pai(k) == b.pai(k),
    ensures
        c.num_escopos() == a.num_escopos(),
        forall|k: int|
            0 <= k < a.num_escopos() ==> #[trigger] c.entradas(k) == a.entradas(k) && c.pai(k) == a.pai(k),
{
    assert(b.num_escopos() == a.num_escopos() + 1);
    assert(c.num_escopos() == a.num_escopos());
    assert forall|k: int| 0 <= k < a.num_escopos() implies #[trigger] c.entradas(k) == a.entradas(k) && c.pai(k)
        == a.pai(k) by {
        assert(0 <= k < c.num_escopos());
        assert(c.entradas(k) == b.entradas(k) && c.pai(k) == b.pai(k));
        assert(b.entradas(k) == a.entradas(k) && b.pai(k) == a.pai(k));
    }
}

} // verus!
